//! The Profile Store and Config Document: named game installations, the
//! tool-wide settings persisted with them, and migration from the legacy
//! index-keyed schema.

use vstd::prelude::*;

use crate::doc::{JField, JLeaf};
use crate::paths::{
    profile_platform_default, spec_default_platform, spec_migrate_location, migrate_location,
    HostOs,
};
use crate::strutil::{
    has_sep, join_seq, parent_of, path_join, path_parent, str_eq, strip_dot_exe,
    strip_dot_exe_spec,
};

verus! {

/// One local game installation: a unique name, the raw install path as
/// normalized at creation time, a platform tag, and any unrecognized keys
/// carried through from the persisted file.
pub struct Profile {
    pub name: String,
    pub gd_path: String,
    pub platform: String,
    pub other: Vec<(String, JLeaf)>,
}

/// The persisted root object: the profile list, tool-wide settings, and any
/// unrecognized keys carried through from the persisted file.
pub struct Config {
    pub current_profile: Option<String>,
    pub profiles: Vec<Profile>,
    pub default_developer: Option<String>,
    pub sdk_nightly: bool,
    pub sdk_version: Option<String>,
    pub index_token: Option<String>,
    pub index_url: String,
    pub other: Vec<(String, JField)>,
}

/// One record of the legacy schema: an install path and an executable name.
pub struct OldConfigInstallation {
    pub path: String,
    pub executable: String,
}

/// The legacy schema: installations keyed by index, not by name.
pub struct OldConfig {
    pub default_installation: usize,
    pub working_installation: Option<usize>,
    pub installations: Option<Vec<OldConfigInstallation>>,
    pub default_developer: Option<String>,
}

/// Some profile in `s` is named `n`.
pub open spec fn has_profile_named(s: Seq<Profile>, n: Seq<char>) -> bool {
    exists|i: int| 0 <= i < s.len() && s[i].name@ == n
}

/// `i` is the first position in `s` whose profile is named `n`.
pub open spec fn is_first_match(s: Seq<Profile>, n: Seq<char>, i: int) -> bool {
    &&& 0 <= i < s.len()
    &&& s[i].name@ == n
    &&& forall|j: int| 0 <= j < i ==> s[j].name@ != n
}

/// The first position in `s` whose profile is named `n` (meaningful only
/// when `has_profile_named(s, n)`).
pub open spec fn first_match_idx(s: Seq<Profile>, n: Seq<char>) -> int {
    choose|i: int| is_first_match(s, n, i)
}

pub proof fn lemma_first_match(s: Seq<Profile>, n: Seq<char>, i: int)
    requires
        is_first_match(s, n, i),
    ensures
        i == first_match_idx(s, n),
        is_first_match(s, n, first_match_idx(s, n)),
{
    let k = first_match_idx(s, n);
    assert(is_first_match(s, n, k));
    if i < k {
        assert(s[i].name@ != n);
    } else if k < i {
        assert(s[k].name@ != n);
    }
}

/// Profile names are pairwise distinct.
pub open spec fn names_unique(s: Seq<Profile>) -> bool {
    forall|i: int, j: int| 0 <= i < j < s.len() ==> (#[trigger] s[i].name@) != (#[trigger] s[j].name@)
}

/// A document holding no profiles and every setting at its default.
pub open spec fn is_fresh_config(c: Config) -> bool {
    &&& c.current_profile is None
    &&& c.profiles@.len() == 0
    &&& c.default_developer is None
    &&& c.sdk_nightly == false
    &&& c.sdk_version is None
    &&& c.index_token is None
    &&& c.index_url@ == crate::spec_default_index_url()
    &&& c.other@ == Seq::<(String, JField)>::empty()
}

/// A fresh, empty, in-memory document, not yet persisted.
pub fn fresh_config() -> (r: Config)
    ensures
        is_fresh_config(r),
{
    Config {
        current_profile: None,
        profiles: Vec::new(),
        default_developer: None,
        sdk_nightly: false,
        sdk_version: None,
        index_token: None,
        index_url: crate::default_index_url(),
        other: Vec::new(),
    }
}

/// An exact copy of an optional setting.
fn clone_opt_string(o: &Option<String>) -> (r: Option<String>)
    ensures
        r == *o,
{
    match o {
        Some(s) => Some(s.clone()),
        None => None,
    }
}

/// What migration turns one legacy installation record into.
pub open spec fn profile_migrated(inst: OldConfigInstallation, p: Profile) -> bool {
    &&& p.name@ == strip_dot_exe_spec(inst.executable@)
    &&& p.gd_path == inst.path
    &&& p.platform@ == "win"@
    &&& p.other@ == Seq::<(String, JLeaf)>::empty()
}

/// What migration turns a whole legacy document into.
pub open spec fn migrates_to(oc: OldConfig, c: Config) -> bool {
    &&& (match oc.installations {
        Some(insts) => c.profiles@.len() == insts@.len() && forall|i: int|
            0 <= i < insts@.len() ==> profile_migrated(insts@[i], #[trigger] c.profiles@[i]),
        None => c.profiles@.len() == 0,
    })
    &&& ({
        let idx = match oc.working_installation {
            Some(w) => w,
            None => oc.default_installation,
        };
        if (idx as int) < c.profiles@.len() {
            c.current_profile matches Some(n) && n == c.profiles@[idx as int].name
        } else {
            c.current_profile is None
        }
    })
    &&& c.default_developer == oc.default_developer
    &&& c.sdk_nightly == false
    &&& c.sdk_version is None
    &&& c.index_token is None
    &&& c.index_url@ == crate::spec_default_index_url()
    &&& c.other@ == Seq::<(String, JField)>::empty()
}

impl OldConfig {
    /// Converts a legacy document: each installation becomes a profile named
    /// after its executable (without the `.exe` suffix), tagged `win`, and
    /// the working (or default) installation index becomes the current
    /// profile's name.
    pub fn migrate(&self) -> (r: Config)
        ensures
            migrates_to(*self, r),
    {
        let mut profiles: Vec<Profile> = Vec::new();
        match &self.installations {
            Some(insts) => {
                let mut i: usize = 0;
                while i < insts.len()
                    invariant
                        0 <= i <= insts.len(),
                        profiles@.len() == i,
                        forall|j: int| 0 <= j < i ==> profile_migrated(
                            insts@[j],
                            #[trigger] profiles@[j],
                        ),
                    decreases insts.len() - i,
                {
                    let inst = &insts[i];
                    profiles.push(Profile {
                        name: strip_dot_exe(inst.executable.as_str()),
                        gd_path: inst.path.clone(),
                        platform: "win".to_owned(),
                        other: Vec::new(),
                    });
                    i += 1;
                }
            },
            None => {},
        }
        let idx = match self.working_installation {
            Some(w) => w,
            None => self.default_installation,
        };
        let current_profile = if idx < profiles.len() {
            Some(profiles[idx].name.clone())
        } else {
            None
        };
        Config {
            current_profile,
            profiles,
            default_developer: clone_opt_string(&self.default_developer),
            sdk_nightly: false,
            sdk_version: None,
            index_token: None,
            index_url: crate::default_index_url(),
            other: Vec::new(),
        }
    }
}

/// Where `gd_path` points for day-to-day use: the executable's directory on
/// Windows, the install path itself elsewhere.
pub open spec fn spec_gd_dir(p: Profile) -> Seq<char> {
    if p.platform@ == "win"@ {
        parent_of(p.gd_path@)
    } else {
        p.gd_path@
    }
}

/// Where this tool stores per-profile artifacts.
pub open spec fn spec_sapfire_dir(p: Profile) -> Seq<char> {
    if p.platform@ == "win"@ {
        join_seq(parent_of(p.gd_path@), "sapfire"@)
    } else if p.platform@ == "android32"@ || p.platform@ == "android64"@ {
        join_seq(p.gd_path@, "game/sapfire"@)
    } else {
        join_seq(p.gd_path@, "Contents/sapfire"@)
    }
}

impl Profile {
    /// A new profile with its install path normalized for its platform. The
    /// caller reports whether `location` is a directory.
    pub fn new(name: String, location: String, platform: String, location_is_dir: bool) -> (r:
        Profile)
        ensures
            r.name == name,
            r.platform == platform,
            r.gd_path@ == spec_migrate_location(location@, platform@, location_is_dir),
            r.other@ == Seq::<(String, JLeaf)>::empty(),
    {
        let gd_path = migrate_location(location.as_str(), platform.as_str(), location_is_dir);
        Profile { name, gd_path, platform, other: Vec::new() }
    }

    /// The game's directory: the executable's parent on Windows, the install
    /// path itself elsewhere.
    pub fn gd_dir(&self) -> (r: String)
        requires
            self.platform@ == "win"@ ==> has_sep(self.gd_path@),
        ensures
            r@ == spec_gd_dir(*self),
    {
        if str_eq(self.platform.as_str(), "win") {
            path_parent(self.gd_path.as_str())
        } else {
            self.gd_path.clone()
        }
    }

    /// The per-profile artifact directory: a sibling `sapfire` folder next to
    /// the executable on Windows, `game/sapfire` under the install root on
    /// Android, `Contents/sapfire` under the bundle root elsewhere.
    pub fn sapfire_dir(&self) -> (r: String)
        requires
            self.platform@ == "win"@ ==> has_sep(self.gd_path@),
        ensures
            r@ == spec_sapfire_dir(*self),
    {
        if str_eq(self.platform.as_str(), "win") {
            let parent = path_parent(self.gd_path.as_str());
            path_join(parent.as_str(), "sapfire")
        } else if str_eq(self.platform.as_str(), "android32") || str_eq(
            self.platform.as_str(),
            "android64",
        ) {
            path_join(self.gd_path.as_str(), "game/sapfire")
        } else {
            path_join(self.gd_path.as_str(), "Contents/sapfire")
        }
    }

    /// The installed-mods directory, under the artifact directory.
    pub fn mods_dir(&self) -> (r: String)
        requires
            self.platform@ == "win"@ ==> has_sep(self.gd_path@),
        ensures
            r@ == join_seq(spec_sapfire_dir(*self), "mods"@),
    {
        let d = self.sapfire_dir();
        path_join(d.as_str(), "mods")
    }

    /// The profile's platform tag.
    pub fn platform_str(&self) -> (r: &str)
        ensures
            r@ == self.platform@,
    {
        self.platform.as_str()
    }
}

/// Why a rename was refused.
#[derive(PartialEq, Eq, Structural, Clone, Copy, Debug)]
pub enum RenameError {
    /// No profile bears the old name.
    NotFound,
    /// A profile already bears the new name.
    NameTaken,
}

impl Config {
    /// The position of the first profile named `name`, if any.
    pub fn find_name(&self, name: &str) -> (r: Option<usize>)
        ensures
            match r {
                Some(i) => is_first_match(self.profiles@, name@, i as int),
                None => !has_profile_named(self.profiles@, name@),
            },
    {
        let mut i: usize = 0;
        while i < self.profiles.len()
            invariant
                0 <= i <= self.profiles.len(),
                forall|j: int| 0 <= j < i ==> self.profiles@[j].name@ != name@,
            decreases self.profiles.len() - i,
        {
            if str_eq(self.profiles[i].name.as_str(), name) {
                return Some(i);
            }
            i += 1;
        }
        None
    }

    /// The position of the first profile bearing the given name, if a name
    /// was given and some profile bears it.
    pub fn get_profile(&self, name: &Option<String>) -> (r: Option<usize>)
        ensures
            match r {
                Some(i) => (name matches Some(n) && is_first_match(self.profiles@, n@, i as int)),
                None => match name {
                    Some(n) => !has_profile_named(self.profiles@, n@),
                    None => true,
                },
            },
    {
        match name {
            Some(n) => self.find_name(n.as_str()),
            None => None,
        }
    }

    /// The profile the current-profile pointer names. The caller must have
    /// validated the pointer (the loader's self-healing step does so).
    pub fn get_current_profile(&self) -> (r: &Profile)
        requires
            self.current_profile matches Some(n) && has_profile_named(self.profiles@, n@),
        ensures
            self.current_profile matches Some(n) && is_first_match(
                self.profiles@,
                n@,
                first_match_idx(self.profiles@, n@),
            ) && *r == self.profiles@[first_match_idx(self.profiles@, n@)],
    {
        match self.get_profile(&self.current_profile) {
            Some(i) => {
                proof {
                    let n = self.current_profile->Some_0;
                    lemma_first_match(self.profiles@, n@, i as int);
                }
                &self.profiles[i]
            },
            None => vstd::pervasive::unreached(),
        }
    }

    /// Renames a profile in place. Fails, mutating nothing, when the old
    /// name is unknown or the new name (including the old name itself) is
    /// already taken; never introduces a duplicate name.
    pub fn rename_profile(&mut self, old_name: &str, new_name: String) -> (r: Result<
        (),
        RenameError,
    >)
        ensures
            (r == Err::<(), RenameError>(RenameError::NotFound)) <==> !has_profile_named(
                old(self).profiles@,
                old_name@,
            ),
            (r == Err::<(), RenameError>(RenameError::NameTaken)) <==> (has_profile_named(
                old(self).profiles@,
                old_name@,
            ) && has_profile_named(old(self).profiles@, new_name@)),
            r is Err ==> *final(self) == *old(self),
            r is Ok ==> ({
                let s = old(self).profiles@;
                let i = first_match_idx(s, old_name@);
                &&& is_first_match(s, old_name@, i)
                &&& !has_profile_named(s, new_name@)
                &&& final(self).profiles@ == s.update(
                    i,
                    Profile {
                        name: new_name,
                        gd_path: s[i].gd_path,
                        platform: s[i].platform,
                        other: s[i].other,
                    },
                )
                &&& final(self).current_profile == old(self).current_profile
                &&& final(self).default_developer == old(self).default_developer
                &&& final(self).sdk_nightly == old(self).sdk_nightly
                &&& final(self).sdk_version == old(self).sdk_version
                &&& final(self).index_token == old(self).index_token
                &&& final(self).index_url == old(self).index_url
                &&& final(self).other@ == old(self).other@
            }),
            names_unique(old(self).profiles@) ==> names_unique(final(self).profiles@),
    {
        match self.find_name(old_name) {
            None => Err(RenameError::NotFound),
            Some(i) => {
                if self.find_name(new_name.as_str()).is_some() {
                    Err(RenameError::NameTaken)
                } else {
                    proof {
                        lemma_first_match(self.profiles@, old_name@, i as int);
                    }
                    let ghost s = self.profiles@;
                    let mut p = self.profiles.remove(i);
                    p.name = new_name;
                    self.profiles.insert(i, p);
                    proof {
                        assert(self.profiles@ =~= s.update(
                            i as int,
                            Profile {
                                name: new_name,
                                gd_path: s[i as int].gd_path,
                                platform: s[i as int].platform,
                                other: s[i as int].other,
                            },
                        ));
                        if names_unique(s) {
                            assert forall|a: int, b: int|
                                0 <= a < b < self.profiles@.len() implies (
                            #[trigger] self.profiles@[a].name@) != (
                            #[trigger] self.profiles@[b].name@) by {
                                if a != i as int && b != i as int {
                                    assert(s[a].name@ != s[b].name@);
                                }
                            }
                        }
                    }
                    Ok(())
                }
            },
        }
    }

    /// Rewrites the legacy ambiguous `mac` platform tag on every profile to
    /// this host's resolved tag; touches nothing else.
    pub fn normalize_platforms(&mut self, host: HostOs)
        ensures
            final(self).profiles@.len() == old(self).profiles@.len(),
            forall|i: int| 0 <= i < old(self).profiles@.len() ==> normalized_profile(
                old(self).profiles@[i],
                #[trigger] final(self).profiles@[i],
                host,
            ),
            final(self).current_profile == old(self).current_profile,
            final(self).default_developer == old(self).default_developer,
            final(self).sdk_nightly == old(self).sdk_nightly,
            final(self).sdk_version == old(self).sdk_version,
            final(self).index_token == old(self).index_token,
            final(self).index_url == old(self).index_url,
            final(self).other@ == old(self).other@,
    {
        let n = self.profiles.len();
        let mut i: usize = 0;
        while i < n
            invariant
                0 <= i <= n,
                self.profiles@.len() == n,
                old(self).profiles@.len() == n,
                forall|j: int| 0 <= j < i ==> normalized_profile(
                    old(self).profiles@[j],
                    #[trigger] self.profiles@[j],
                    host,
                ),
                forall|j: int| i <= j < n ==> self.profiles@[j] == old(self).profiles@[j],
                self.current_profile == old(self).current_profile,
                self.default_developer == old(self).default_developer,
                self.sdk_nightly == old(self).sdk_nightly,
                self.sdk_version == old(self).sdk_version,
                self.index_token == old(self).index_token,
                self.index_url == old(self).index_url,
                self.other@ == old(self).other@,
            decreases n - i,
        {
            if str_eq(self.profiles[i].platform.as_str(), "mac") {
                let ghost s = self.profiles@;
                let mut p = self.profiles.remove(i);
                p.platform = profile_platform_default(host);
                self.profiles.insert(i, p);
                proof {
                    assert forall|j: int| 0 <= j < n && j != i implies self.profiles@[j] == s[j] by {
                        if j < i as int {
                            assert(self.profiles@[j] == s.remove(i as int).insert(
                                i as int,
                                self.profiles@[i as int],
                            )[j]);
                        }
                    }
                }
            }
            i += 1;
        }
    }

    /// Self-heals the current-profile pointer: a pointer naming an existing
    /// profile is kept; otherwise the first profile is substituted, or the
    /// pointer is cleared when no profile exists.
    pub fn fix_current_profile(&mut self)
        ensures
            final(self).profiles@ == old(self).profiles@,
            final(self).default_developer == old(self).default_developer,
            final(self).sdk_nightly == old(self).sdk_nightly,
            final(self).sdk_version == old(self).sdk_version,
            final(self).index_token == old(self).index_token,
            final(self).index_url == old(self).index_url,
            final(self).other@ == old(self).other@,
            ({
                let valid = old(self).current_profile matches Some(n) && has_profile_named(
                    old(self).profiles@,
                    n@,
                );
                if valid {
                    final(self).current_profile == old(self).current_profile
                } else if old(self).profiles@.len() > 0 {
                    final(self).current_profile matches Some(n) && n
                        == old(self).profiles@[0].name
                } else {
                    final(self).current_profile is None
                }
            }),
    {
        let valid = match &self.current_profile {
            Some(n) => self.find_name(n.as_str()).is_some(),
            None => false,
        };
        if !valid {
            if self.profiles.len() > 0 {
                self.current_profile = Some(self.profiles[0].name.clone());
            } else {
                self.current_profile = None;
            }
        }
    }
}

/// How one profile relates to its platform-normalized form.
pub open spec fn normalized_profile(po: Profile, pn: Profile, host: HostOs) -> bool {
    &&& pn.name == po.name
    &&& pn.gd_path == po.gd_path
    &&& pn.other@ == po.other@
    &&& if po.platform@ == "mac"@ {
        pn.platform@ == spec_default_platform(host)
    } else {
        pn.platform == po.platform
    }
}

} // verus!
