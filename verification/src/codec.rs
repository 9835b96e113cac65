//! Codec between the Config Document and the persisted file's shape, with
//! the loader's state machine and the round-trip law: a document loaded,
//! saved without mutation and reloaded comes back equal in every recognized
//! field, and every unrecognized key survives byte for byte.

use vstd::prelude::*;

use crate::config::{
    fresh_config, is_fresh_config, migrates_to, normalized_profile, Config, OldConfig,
    OldConfigInstallation, Profile,
};
use crate::doc::{
    doc_lookup, field_equiv, obj_lookup, pairs_equiv, copy_field, copy_leaf, doc_get, obj_get,
    JDoc, JField, JLeaf, JObj,
};
use crate::paths::{profile_platform_default, spec_default_platform, HostOs};
use crate::strutil::str_eq;

verus! {

// ---------------------------------------------------------------------------
// Recognized keys
// ---------------------------------------------------------------------------

/// Keys the current schema gives a meaning to at the document's top level.
pub open spec fn recognized_config_key(k: Seq<char>) -> bool {
    ||| k == "current-profile"@
    ||| k == "profiles"@
    ||| k == "default-developer"@
    ||| k == "sdk-nightly"@
    ||| k == "sdk-version"@
    ||| k == "index-token"@
    ||| k == "index-url"@
}

/// Keys the current schema gives a meaning to inside a profile object.
pub open spec fn recognized_profile_key(k: Seq<char>) -> bool {
    ||| k == "name"@
    ||| k == "gd-path"@
    ||| k == "platform"@
}

fn is_recognized_config_key(k: &str) -> (r: bool)
    ensures
        r == recognized_config_key(k@),
{
    str_eq(k, "current-profile") || str_eq(k, "profiles") || str_eq(k, "default-developer")
        || str_eq(k, "sdk-nightly") || str_eq(k, "sdk-version") || str_eq(k, "index-token")
        || str_eq(k, "index-url")
}

fn is_recognized_profile_key(k: &str) -> (r: bool)
    ensures
        r == recognized_profile_key(k@),
{
    str_eq(k, "name") || str_eq(k, "gd-path") || str_eq(k, "platform")
}

// ---------------------------------------------------------------------------
// Unrecognized-key passthrough
// ---------------------------------------------------------------------------

/// The document's fields under unrecognized keys, in order.
pub open spec fn unknown_doc_entries(s: Seq<(String, JField)>) -> Seq<(String, JField)>
    decreases s.len(),
{
    if s.len() == 0 {
        Seq::empty()
    } else if recognized_config_key(s[0].0@) {
        unknown_doc_entries(s.drop_first())
    } else {
        seq![s[0]] + unknown_doc_entries(s.drop_first())
    }
}

/// A profile object's entries under unrecognized keys, in order.
pub open spec fn unknown_obj_entries(s: Seq<(String, JLeaf)>) -> Seq<(String, JLeaf)>
    decreases s.len(),
{
    if s.len() == 0 {
        Seq::empty()
    } else if recognized_profile_key(s[0].0@) {
        unknown_obj_entries(s.drop_first())
    } else {
        seq![s[0]] + unknown_obj_entries(s.drop_first())
    }
}

proof fn lemma_unknown_doc_snoc(s: Seq<(String, JField)>, e: (String, JField))
    ensures
        unknown_doc_entries(s.push(e)) == unknown_doc_entries(s) + (if recognized_config_key(e.0@) {
            Seq::<(String, JField)>::empty()
        } else {
            seq![e]
        }),
    decreases s.len(),
{
    let t = s.push(e);
    if s.len() == 0 {
        assert(t.drop_first() =~= Seq::<(String, JField)>::empty());
        assert(unknown_doc_entries(Seq::<(String, JField)>::empty()) =~= Seq::<(
            String,
            JField,
        )>::empty());
        assert(t[0] == e);
        if recognized_config_key(e.0@) {
            assert(unknown_doc_entries(t) =~= unknown_doc_entries(s) + Seq::<(
                String,
                JField,
            )>::empty());
        } else {
            assert(unknown_doc_entries(t) =~= unknown_doc_entries(s) + seq![e]);
        }
    } else {
        assert(t[0] == s[0]);
        assert(t.drop_first() =~= s.drop_first().push(e));
        lemma_unknown_doc_snoc(s.drop_first(), e);
        if recognized_config_key(s[0].0@) {
        } else {
            assert(seq![s[0]] + (unknown_doc_entries(s.drop_first()) + (
            if recognized_config_key(e.0@) {
                Seq::<(String, JField)>::empty()
            } else {
                seq![e]
            })) =~= (seq![s[0]] + unknown_doc_entries(s.drop_first())) + (
            if recognized_config_key(e.0@) {
                Seq::<(String, JField)>::empty()
            } else {
                seq![e]
            }));
        }
    }
}

proof fn lemma_unknown_obj_snoc(s: Seq<(String, JLeaf)>, e: (String, JLeaf))
    ensures
        unknown_obj_entries(s.push(e)) == unknown_obj_entries(s) + (if recognized_profile_key(
            e.0@,
        ) {
            Seq::<(String, JLeaf)>::empty()
        } else {
            seq![e]
        }),
    decreases s.len(),
{
    let t = s.push(e);
    if s.len() == 0 {
        assert(t.drop_first() =~= Seq::<(String, JLeaf)>::empty());
        assert(unknown_obj_entries(Seq::<(String, JLeaf)>::empty()) =~= Seq::<(
            String,
            JLeaf,
        )>::empty());
        assert(t[0] == e);
        if recognized_profile_key(e.0@) {
            assert(unknown_obj_entries(t) =~= unknown_obj_entries(s) + Seq::<(
                String,
                JLeaf,
            )>::empty());
        } else {
            assert(unknown_obj_entries(t) =~= unknown_obj_entries(s) + seq![e]);
        }
    } else {
        assert(t[0] == s[0]);
        assert(t.drop_first() =~= s.drop_first().push(e));
        lemma_unknown_obj_snoc(s.drop_first(), e);
        if recognized_profile_key(s[0].0@) {
        } else {
            assert(seq![s[0]] + (unknown_obj_entries(s.drop_first()) + (
            if recognized_profile_key(e.0@) {
                Seq::<(String, JLeaf)>::empty()
            } else {
                seq![e]
            })) =~= (seq![s[0]] + unknown_obj_entries(s.drop_first())) + (
            if recognized_profile_key(e.0@) {
                Seq::<(String, JLeaf)>::empty()
            } else {
                seq![e]
            }));
        }
    }
}

// ---------------------------------------------------------------------------
// What the current schema accepts, and what a parse yields
// ---------------------------------------------------------------------------

/// An optional string setting: absent, null, or a string.
pub open spec fn opt_string_ok(v: Option<JField>) -> bool {
    match v {
        None => true,
        Some(JField::Leaf(JLeaf::Null)) => true,
        Some(JField::Leaf(JLeaf::Str(_))) => true,
        _ => false,
    }
}

/// The value of an optional string setting.
pub open spec fn opt_string_val(v: Option<JField>) -> Option<String> {
    match v {
        Some(JField::Leaf(JLeaf::Str(s))) => Some(s),
        _ => None,
    }
}

/// A profile object the current schema accepts: a string name, a string
/// install path, and a platform tag that is a string when present.
pub open spec fn is_profile_obj(o: Seq<(String, JLeaf)>) -> bool {
    &&& obj_lookup(o, "name"@) matches Some(JLeaf::Str(_))
    &&& obj_lookup(o, "gd-path"@) matches Some(JLeaf::Str(_))
    &&& match obj_lookup(o, "platform"@) {
        None => true,
        Some(JLeaf::Str(_)) => true,
        _ => false,
    }
}

/// How a parsed profile relates to its object: named fields looked up by
/// first occurrence, the platform defaulting to the host's tag when absent,
/// and every unrecognized entry carried into `other` in order.
pub open spec fn parses_profile(o: Seq<(String, JLeaf)>, host: HostOs, p: Profile) -> bool {
    &&& is_profile_obj(o)
    &&& match obj_lookup(o, "name"@) {
        Some(JLeaf::Str(s)) => p.name == s,
        _ => false,
    }
    &&& match obj_lookup(o, "gd-path"@) {
        Some(JLeaf::Str(s)) => p.gd_path == s,
        _ => false,
    }
    &&& match obj_lookup(o, "platform"@) {
        None => p.platform@ == spec_default_platform(host),
        Some(JLeaf::Str(s)) => p.platform == s,
        _ => false,
    }
    &&& p.other@ == unknown_obj_entries(o)
}

/// A document the current schema accepts.
pub open spec fn is_config_doc(s: Seq<(String, JField)>) -> bool {
    &&& opt_string_ok(doc_lookup(s, "current-profile"@))
    &&& opt_string_ok(doc_lookup(s, "default-developer"@))
    &&& opt_string_ok(doc_lookup(s, "sdk-version"@))
    &&& opt_string_ok(doc_lookup(s, "index-token"@))
    &&& doc_lookup(s, "sdk-nightly"@) matches Some(JField::Leaf(JLeaf::Bool(_)))
    &&& match doc_lookup(s, "index-url"@) {
        None => true,
        Some(JField::Leaf(JLeaf::Str(_))) => true,
        _ => false,
    }
    &&& match doc_lookup(s, "profiles"@) {
        Some(JField::Objs(v)) => forall|i: int|
            0 <= i < v@.len() ==> is_profile_obj(#[trigger] v@[i].entries@),
        _ => false,
    }
}

/// How a parsed Config Document relates to its document.
pub open spec fn parses_config(s: Seq<(String, JField)>, host: HostOs, c: Config) -> bool {
    &&& is_config_doc(s)
    &&& c.current_profile == opt_string_val(doc_lookup(s, "current-profile"@))
    &&& c.default_developer == opt_string_val(doc_lookup(s, "default-developer"@))
    &&& c.sdk_version == opt_string_val(doc_lookup(s, "sdk-version"@))
    &&& c.index_token == opt_string_val(doc_lookup(s, "index-token"@))
    &&& match doc_lookup(s, "sdk-nightly"@) {
        Some(JField::Leaf(JLeaf::Bool(b))) => c.sdk_nightly == b,
        _ => false,
    }
    &&& match doc_lookup(s, "index-url"@) {
        None => c.index_url@ == crate::spec_default_index_url(),
        Some(JField::Leaf(JLeaf::Str(u))) => c.index_url == u,
        _ => false,
    }
    &&& match doc_lookup(s, "profiles"@) {
        Some(JField::Objs(v)) => c.profiles@.len() == v@.len() && forall|i: int|
            0 <= i < v@.len() ==> parses_profile(v@[i].entries@, host, #[trigger] c.profiles@[i]),
        _ => false,
    }
    &&& pairs_equiv(c.other@, unknown_doc_entries(s))
}

// ---------------------------------------------------------------------------
// Parsing: document -> Config
// ---------------------------------------------------------------------------

/// Reads one profile out of its object. `None` exactly when the object does
/// not fit the schema.
pub fn profile_from_obj(o: &JObj, host: HostOs) -> (r: Option<Profile>)
    ensures
        match r {
            Some(p) => parses_profile(o.entries@, host, p),
            None => !is_profile_obj(o.entries@),
        },
{
    let name = match obj_get(&o.entries, "name") {
        Some(l) => match l {
            JLeaf::Str(s) => s.clone(),
            _ => {
                return None;
            },
        },
        None => {
            return None;
        },
    };
    let gd_path = match obj_get(&o.entries, "gd-path") {
        Some(l) => match l {
            JLeaf::Str(s) => s.clone(),
            _ => {
                return None;
            },
        },
        None => {
            return None;
        },
    };
    let platform = match obj_get(&o.entries, "platform") {
        Some(l) => match l {
            JLeaf::Str(s) => s.clone(),
            _ => {
                return None;
            },
        },
        None => profile_platform_default(host),
    };
    let mut other: Vec<(String, JLeaf)> = Vec::new();
    let mut i: usize = 0;
    proof {
        assert(o.entries@.take(0) =~= Seq::<(String, JLeaf)>::empty());
    }
    while i < o.entries.len()
        invariant
            0 <= i <= o.entries.len(),
            other@ == unknown_obj_entries(o.entries@.take(i as int)),
        decreases o.entries.len() - i,
    {
        let (k, v) = &o.entries[i];
        proof {
            assert(o.entries@.take(i as int).push(o.entries@[i as int]) =~= o.entries@.take(
                i as int + 1,
            ));
            lemma_unknown_obj_snoc(o.entries@.take(i as int), o.entries@[i as int]);
        }
        if !is_recognized_profile_key(k.as_str()) {
            other.push((k.clone(), copy_leaf(v)));
            proof {
                assert(other@ =~= unknown_obj_entries(o.entries@.take(i as int + 1)));
            }
        } else {
            proof {
                assert(other@ =~= unknown_obj_entries(o.entries@.take(i as int + 1)));
            }
        }
        i += 1;
    }
    proof {
        assert(o.entries@.take(o.entries@.len() as int) =~= o.entries@);
    }
    Some(Profile { name, gd_path, platform, other })
}

/// Reads a whole Config Document. `None` exactly when the document does not
/// fit the current schema (the loader then tries the legacy schema).
pub fn config_from_doc(d: &JDoc, host: HostOs) -> (r: Option<Config>)
    ensures
        match r {
            Some(c) => parses_config(d.entries@, host, c),
            None => !is_config_doc(d.entries@),
        },
{
    let current_profile = match doc_get(&d.entries, "current-profile") {
        None => None,
        Some(f) => match f {
            JField::Leaf(JLeaf::Null) => None,
            JField::Leaf(JLeaf::Str(s)) => Some(s.clone()),
            _ => {
                return None;
            },
        },
    };
    let default_developer = match doc_get(&d.entries, "default-developer") {
        None => None,
        Some(f) => match f {
            JField::Leaf(JLeaf::Null) => None,
            JField::Leaf(JLeaf::Str(s)) => Some(s.clone()),
            _ => {
                return None;
            },
        },
    };
    let sdk_version = match doc_get(&d.entries, "sdk-version") {
        None => None,
        Some(f) => match f {
            JField::Leaf(JLeaf::Null) => None,
            JField::Leaf(JLeaf::Str(s)) => Some(s.clone()),
            _ => {
                return None;
            },
        },
    };
    let index_token = match doc_get(&d.entries, "index-token") {
        None => None,
        Some(f) => match f {
            JField::Leaf(JLeaf::Null) => None,
            JField::Leaf(JLeaf::Str(s)) => Some(s.clone()),
            _ => {
                return None;
            },
        },
    };
    let sdk_nightly = match doc_get(&d.entries, "sdk-nightly") {
        Some(f) => match f {
            JField::Leaf(JLeaf::Bool(b)) => *b,
            _ => {
                return None;
            },
        },
        None => {
            return None;
        },
    };
    let index_url = match doc_get(&d.entries, "index-url") {
        None => crate::default_index_url(),
        Some(f) => match f {
            JField::Leaf(JLeaf::Str(s)) => s.clone(),
            _ => {
                return None;
            },
        },
    };
    let profiles = match doc_get(&d.entries, "profiles") {
        Some(f) => match f {
            JField::Objs(v) => {
                let mut profiles: Vec<Profile> = Vec::new();
                let mut i: usize = 0;
                while i < v.len()
                    invariant
                        0 <= i <= v.len(),
                        profiles@.len() == i,
                        doc_lookup(d.entries@, "profiles"@) matches Some(JField::Objs(w)) && w@
                            == v@,
                        forall|j: int|
                            #![trigger v@[j].entries@]
                            #![trigger profiles@[j]]
                            0 <= j < i ==> parses_profile(v@[j].entries@, host, profiles@[j]),
                    decreases v.len() - i,
                {
                    match profile_from_obj(&v[i], host) {
                        Some(p) => {
                            profiles.push(p);
                        },
                        None => {
                            return None;
                        },
                    }
                    i += 1;
                }
                profiles
            },
            _ => {
                return None;
            },
        },
        None => {
            return None;
        },
    };
    let mut other: Vec<(String, JField)> = Vec::new();
    let mut i: usize = 0;
    proof {
        assert(d.entries@.take(0) =~= Seq::<(String, JField)>::empty());
        assert(pairs_equiv(other@, unknown_doc_entries(d.entries@.take(0))));
    }
    while i < d.entries.len()
        invariant
            0 <= i <= d.entries.len(),
            pairs_equiv(other@, unknown_doc_entries(d.entries@.take(i as int))),
        decreases d.entries.len() - i,
    {
        let (k, v) = &d.entries[i];
        proof {
            assert(d.entries@.take(i as int).push(d.entries@[i as int]) =~= d.entries@.take(
                i as int + 1,
            ));
            lemma_unknown_doc_snoc(d.entries@.take(i as int), d.entries@[i as int]);
        }
        let ghost prev_unknown = unknown_doc_entries(d.entries@.take(i as int));
        let ghost next_unknown = unknown_doc_entries(d.entries@.take(i as int + 1));
        if !is_recognized_config_key(k.as_str()) {
            other.push((k.clone(), copy_field(v)));
            proof {
                assert(next_unknown =~= prev_unknown + seq![d.entries@[i as int]]);
                assert forall|j: int| 0 <= j < other@.len() implies (#[trigger] other@[j]).0
                    == next_unknown[j].0 && field_equiv(other@[j].1, next_unknown[j].1) by {
                    if j < other@.len() - 1 {
                        assert(other@[j].0 == prev_unknown[j].0 && field_equiv(
                            other@[j].1,
                            prev_unknown[j].1,
                        ));
                        assert(next_unknown[j] == prev_unknown[j]);
                    } else {
                        assert(next_unknown[j] == d.entries@[i as int]);
                    }
                }
            }
        } else {
            proof {
                assert(next_unknown =~= prev_unknown);
            }
        }
        i += 1;
    }
    proof {
        assert(d.entries@.take(d.entries@.len() as int) =~= d.entries@);
    }
    Some(
        Config {
            current_profile,
            profiles,
            default_developer,
            sdk_nightly,
            sdk_version,
            index_token,
            index_url,
            other,
        },
    )
}

// ---------------------------------------------------------------------------
// The legacy schema
// ---------------------------------------------------------------------------

/// An optional installation index: absent, null, or a non-negative integer
/// that fits the machine's word.
pub open spec fn opt_usize_ok(v: Option<JField>) -> bool {
    match v {
        None => true,
        Some(JField::Leaf(JLeaf::Null)) => true,
        Some(JField::Leaf(JLeaf::Int(n))) => 0 <= n as int && n as int <= usize::MAX as int,
        _ => false,
    }
}

/// The value of an optional installation index.
pub open spec fn opt_usize_val(v: Option<JField>) -> Option<usize> {
    match v {
        Some(JField::Leaf(JLeaf::Int(n))) => Some(n as usize),
        _ => None,
    }
}

/// A legacy installation record: a string path and a string executable name
/// (unrecognized keys are ignored, as the legacy schema has no passthrough).
pub open spec fn is_inst_obj(o: Seq<(String, JLeaf)>) -> bool {
    &&& obj_lookup(o, "path"@) matches Some(JLeaf::Str(_))
    &&& obj_lookup(o, "executable"@) matches Some(JLeaf::Str(_))
}

/// How a parsed legacy installation relates to its object.
pub open spec fn parses_inst(o: Seq<(String, JLeaf)>, inst: OldConfigInstallation) -> bool {
    &&& is_inst_obj(o)
    &&& match obj_lookup(o, "path"@) {
        Some(JLeaf::Str(s)) => inst.path == s,
        _ => false,
    }
    &&& match obj_lookup(o, "executable"@) {
        Some(JLeaf::Str(s)) => inst.executable == s,
        _ => false,
    }
}

/// A document the legacy schema accepts.
pub open spec fn is_old_doc(s: Seq<(String, JField)>) -> bool {
    &&& match doc_lookup(s, "default-installation"@) {
        Some(JField::Leaf(JLeaf::Int(n))) => 0 <= n as int && n as int <= usize::MAX as int,
        _ => false,
    }
    &&& opt_usize_ok(doc_lookup(s, "working-installation"@))
    &&& match doc_lookup(s, "installations"@) {
        None => true,
        Some(JField::Leaf(JLeaf::Null)) => true,
        Some(JField::Objs(v)) => forall|i: int|
            0 <= i < v@.len() ==> is_inst_obj(#[trigger] v@[i].entries@),
        _ => false,
    }
    &&& opt_string_ok(doc_lookup(s, "default-developer"@))
}

/// How a parsed legacy document relates to its document.
pub open spec fn parses_old(s: Seq<(String, JField)>, oc: OldConfig) -> bool {
    &&& is_old_doc(s)
    &&& match doc_lookup(s, "default-installation"@) {
        Some(JField::Leaf(JLeaf::Int(n))) => oc.default_installation == n as usize,
        _ => false,
    }
    &&& oc.working_installation == opt_usize_val(doc_lookup(s, "working-installation"@))
    &&& match doc_lookup(s, "installations"@) {
        None => oc.installations is None,
        Some(JField::Leaf(JLeaf::Null)) => oc.installations is None,
        Some(JField::Objs(v)) => oc.installations matches Some(insts) && insts@.len() == v@.len()
            && forall|i: int|
            #![trigger v@[i].entries@]
            #![trigger insts@[i]]
            0 <= i < v@.len() ==> parses_inst(v@[i].entries@, insts@[i]),
        _ => false,
    }
    &&& oc.default_developer == opt_string_val(doc_lookup(s, "default-developer"@))
}

/// Reads one legacy installation record. `None` exactly when the object
/// does not fit the legacy schema.
fn inst_from_obj(o: &JObj) -> (r: Option<OldConfigInstallation>)
    ensures
        match r {
            Some(inst) => parses_inst(o.entries@, inst),
            None => !is_inst_obj(o.entries@),
        },
{
    let path = match obj_get(&o.entries, "path") {
        Some(l) => match l {
            JLeaf::Str(s) => s.clone(),
            _ => {
                return None;
            },
        },
        None => {
            return None;
        },
    };
    let executable = match obj_get(&o.entries, "executable") {
        Some(l) => match l {
            JLeaf::Str(s) => s.clone(),
            _ => {
                return None;
            },
        },
        None => {
            return None;
        },
    };
    Some(OldConfigInstallation { path, executable })
}

/// Reads a legacy document. `None` exactly when the document does not fit
/// the legacy schema either; the loader then gives up.
pub fn old_config_from_doc(d: &JDoc) -> (r: Option<OldConfig>)
    ensures
        match r {
            Some(oc) => parses_old(d.entries@, oc),
            None => !is_old_doc(d.entries@),
        },
{
    let default_installation = match doc_get(&d.entries, "default-installation") {
        Some(f) => match f {
            JField::Leaf(JLeaf::Int(n)) => {
                let n = *n;
                if n >= 0 && (n as u64) <= (usize::MAX as u64) {
                    n as usize
                } else {
                    return None;
                }
            },
            _ => {
                return None;
            },
        },
        None => {
            return None;
        },
    };
    let working_installation = match doc_get(&d.entries, "working-installation") {
        None => None,
        Some(f) => match f {
            JField::Leaf(JLeaf::Null) => None,
            JField::Leaf(JLeaf::Int(n)) => {
                let n = *n;
                if n >= 0 && (n as u64) <= (usize::MAX as u64) {
                    Some(n as usize)
                } else {
                    return None;
                }
            },
            _ => {
                return None;
            },
        },
    };
    let installations = match doc_get(&d.entries, "installations") {
        None => None,
        Some(f) => match f {
            JField::Leaf(JLeaf::Null) => None,
            JField::Objs(v) => {
                let mut insts: Vec<OldConfigInstallation> = Vec::new();
                let mut i: usize = 0;
                while i < v.len()
                    invariant
                        0 <= i <= v.len(),
                        insts@.len() == i,
                        doc_lookup(d.entries@, "installations"@) matches Some(JField::Objs(w))
                            && w@ == v@,
                        forall|j: int|
                            #![trigger v@[j].entries@]
                            #![trigger insts@[j]]
                            0 <= j < i ==> parses_inst(v@[j].entries@, insts@[j]),
                    decreases v.len() - i,
                {
                    match inst_from_obj(&v[i]) {
                        Some(inst) => {
                            insts.push(inst);
                        },
                        None => {
                            return None;
                        },
                    }
                    i += 1;
                }
                Some(insts)
            },
            _ => {
                return None;
            },
        },
    };
    let default_developer = match doc_get(&d.entries, "default-developer") {
        None => None,
        Some(f) => match f {
            JField::Leaf(JLeaf::Null) => None,
            JField::Leaf(JLeaf::Str(s)) => Some(s.clone()),
            _ => {
                return None;
            },
        },
    };
    Some(
        OldConfig {
            default_installation,
            working_installation,
            installations,
            default_developer,
        },
    )
}

// ---------------------------------------------------------------------------
// Encoding: Config -> document
// ---------------------------------------------------------------------------

/// How an optional string setting is written out.
pub open spec fn enc_opt(v: Option<String>) -> JLeaf {
    match v {
        None => JLeaf::Null,
        Some(s) => JLeaf::Str(s),
    }
}

/// `o` is exactly the written-out form of `p`: the three named entries in
/// schema order, then every unrecognized entry, in order and unchanged.
pub open spec fn encodes_profile(p: Profile, o: Seq<(String, JLeaf)>) -> bool {
    &&& o.len() == 3 + p.other@.len()
    &&& o[0].0@ == "name"@ && o[0].1 == JLeaf::Str(p.name)
    &&& o[1].0@ == "gd-path"@ && o[1].1 == JLeaf::Str(p.gd_path)
    &&& o[2].0@ == "platform"@ && o[2].1 == JLeaf::Str(p.platform)
    &&& forall|k: int| 0 <= k < p.other@.len() ==> #[trigger] o[3 + k] == p.other@[k]
}

/// `s` is exactly the written-out form of `c`: the seven named fields in
/// schema order, then every unrecognized field, in order, holding the same
/// data.
pub open spec fn encodes_config(c: Config, s: Seq<(String, JField)>) -> bool {
    &&& s.len() == 7 + c.other@.len()
    &&& s[0].0@ == "current-profile"@ && s[0].1 == JField::Leaf(enc_opt(c.current_profile))
    &&& s[1].0@ == "profiles"@ && (match s[1].1 {
        JField::Objs(v) => v@.len() == c.profiles@.len() && forall|i: int|
            #![trigger v@[i].entries@]
            #![trigger c.profiles@[i]]
            0 <= i < v@.len() ==> encodes_profile(c.profiles@[i], v@[i].entries@),
        _ => false,
    })
    &&& s[2].0@ == "default-developer"@ && s[2].1 == JField::Leaf(enc_opt(c.default_developer))
    &&& s[3].0@ == "sdk-nightly"@ && s[3].1 == JField::Leaf(JLeaf::Bool(c.sdk_nightly))
    &&& s[4].0@ == "sdk-version"@ && s[4].1 == JField::Leaf(enc_opt(c.sdk_version))
    &&& s[5].0@ == "index-token"@ && s[5].1 == JField::Leaf(enc_opt(c.index_token))
    &&& s[6].0@ == "index-url"@ && s[6].1 == JField::Leaf(JLeaf::Str(c.index_url))
    &&& forall|k: int| 0 <= k < c.other@.len() ==> (#[trigger] s[7 + k]).0 == c.other@[k].0
        && field_equiv(s[7 + k].1, c.other@[k].1)
}

/// Writes the leaf of an optional string setting.
fn enc_opt_leaf(v: &Option<String>) -> (r: JLeaf)
    ensures
        r == enc_opt(*v),
{
    match v {
        None => JLeaf::Null,
        Some(s) => JLeaf::Str(s.clone()),
    }
}

/// Writes one profile out as an object.
pub fn profile_to_obj(p: &Profile) -> (o: JObj)
    ensures
        encodes_profile(*p, o.entries@),
{
    let mut entries: Vec<(String, JLeaf)> = Vec::new();
    entries.push(("name".to_owned(), JLeaf::Str(p.name.clone())));
    entries.push(("gd-path".to_owned(), JLeaf::Str(p.gd_path.clone())));
    entries.push(("platform".to_owned(), JLeaf::Str(p.platform.clone())));
    let mut i: usize = 0;
    while i < p.other.len()
        invariant
            0 <= i <= p.other.len(),
            entries@.len() == 3 + i,
            entries@[0].0@ == "name"@ && entries@[0].1 == JLeaf::Str(p.name),
            entries@[1].0@ == "gd-path"@ && entries@[1].1 == JLeaf::Str(p.gd_path),
            entries@[2].0@ == "platform"@ && entries@[2].1 == JLeaf::Str(p.platform),
            forall|k: int| 0 <= k < i ==> #[trigger] entries@[3 + k] == p.other@[k],
        decreases p.other.len() - i,
    {
        let (k, v) = &p.other[i];
        entries.push((k.clone(), copy_leaf(v)));
        i += 1;
    }
    JObj { entries }
}

/// Writes a whole Config Document out, in the persisted file's shape. The
/// unverified rim renders the result as JSON text and writes the file; any
/// failure there is fatal, as the spec of `save` requires.
#[verifier::loop_isolation(false)]
pub fn config_to_doc(c: &Config) -> (d: JDoc)
    ensures
        encodes_config(*c, d.entries@),
{
    let mut entries: Vec<(String, JField)> = Vec::new();
    entries.push(("current-profile".to_owned(), JField::Leaf(enc_opt_leaf(&c.current_profile))));
    let mut objs: Vec<JObj> = Vec::new();
    let mut i: usize = 0;
    while i < c.profiles.len()
        invariant
            0 <= i <= c.profiles.len(),
            objs@.len() == i,
            forall|j: int|
                #![trigger objs@[j].entries@]
                #![trigger c.profiles@[j]]
                0 <= j < i ==> encodes_profile(c.profiles@[j], objs@[j].entries@),
        decreases c.profiles.len() - i,
    {
        objs.push(profile_to_obj(&c.profiles[i]));
        i += 1;
    }
    entries.push(("profiles".to_owned(), JField::Objs(objs)));
    entries.push(("default-developer".to_owned(), JField::Leaf(enc_opt_leaf(&c.default_developer))));
    entries.push(("sdk-nightly".to_owned(), JField::Leaf(JLeaf::Bool(c.sdk_nightly))));
    entries.push(("sdk-version".to_owned(), JField::Leaf(enc_opt_leaf(&c.sdk_version))));
    entries.push(("index-token".to_owned(), JField::Leaf(enc_opt_leaf(&c.index_token))));
    entries.push(("index-url".to_owned(), JField::Leaf(JLeaf::Str(c.index_url.clone()))));
    let ghost base = entries@;
    let mut i: usize = 0;
    while i < c.other.len()
        invariant
            0 <= i <= c.other.len(),
            entries@.len() == 7 + i,
            base.len() == 7,
            entries@.take(7) =~= base,
            forall|k: int| 0 <= k < i ==> (#[trigger] entries@[7 + k]).0 == c.other@[k].0
                && field_equiv(entries@[7 + k].1, c.other@[k].1),
        decreases c.other.len() - i,
    {
        let (k, v) = &c.other[i];
        entries.push((k.clone(), copy_field(v)));
        i += 1;
    }
    proof {
        assert forall|k: int| 0 <= k < 7 implies entries@[k] == base[k] by {
            assert(entries@.take(7)[k] == entries@[k]);
        }
        assert(base[0].0@ == "current-profile"@);
        assert(base[0].1 == JField::Leaf(enc_opt(c.current_profile)));
        assert(base[1].0@ == "profiles"@);
        assert(base[1].1 == JField::Objs(objs));
        assert(base[2].0@ == "default-developer"@);
        assert(base[2].1 == JField::Leaf(enc_opt(c.default_developer)));
        assert(base[3].0@ == "sdk-nightly"@);
        assert(base[3].1 == JField::Leaf(JLeaf::Bool(c.sdk_nightly)));
        assert(base[4].0@ == "sdk-version"@);
        assert(base[4].1 == JField::Leaf(enc_opt(c.sdk_version)));
        assert(base[5].0@ == "index-token"@);
        assert(base[5].1 == JField::Leaf(enc_opt(c.index_token)));
        assert(base[6].0@ == "index-url"@);
        assert(base[6].1 == JField::Leaf(JLeaf::Str(c.index_url)));
    }
    JDoc { entries }
}

// ---------------------------------------------------------------------------
// The round-trip law
// ---------------------------------------------------------------------------

/// A profile whose passthrough entries use no recognized key, as every
/// parsed profile does; saving such a profile cannot shadow a named field.
pub open spec fn profile_wf_for_save(p: Profile) -> bool {
    forall|k: int| 0 <= k < p.other@.len() ==> !recognized_profile_key(
        (#[trigger] p.other@[k]).0@,
    )
}

/// A document whose passthrough entries, at both levels, use no recognized
/// key, as every parsed document does.
pub open spec fn config_wf_for_save(c: Config) -> bool {
    &&& forall|k: int| 0 <= k < c.other@.len() ==> !recognized_config_key(
        (#[trigger] c.other@[k]).0@,
    )
    &&& forall|i: int| 0 <= i < c.profiles@.len() ==> profile_wf_for_save(
        #[trigger] c.profiles@[i],
    )
}

/// Two profiles hold the same data.
pub open spec fn profile_equiv(a: Profile, b: Profile) -> bool {
    &&& a.name == b.name
    &&& a.gd_path == b.gd_path
    &&& a.platform == b.platform
    &&& a.other@ == b.other@
}

/// Two Config Documents hold the same data in every recognized field and
/// the same passthrough entries, key for key.
pub open spec fn config_equiv(a: Config, b: Config) -> bool {
    &&& a.current_profile == b.current_profile
    &&& a.default_developer == b.default_developer
    &&& a.sdk_nightly == b.sdk_nightly
    &&& a.sdk_version == b.sdk_version
    &&& a.index_token == b.index_token
    &&& a.index_url == b.index_url
    &&& a.profiles@.len() == b.profiles@.len()
    &&& forall|i: int| 0 <= i < a.profiles@.len() ==> profile_equiv(
        #[trigger] a.profiles@[i],
        b.profiles@[i],
    )
    &&& pairs_equiv(a.other@, b.other@)
}

proof fn lemma_doc_lookup_at(s: Seq<(String, JField)>, k: Seq<char>, i: int)
    requires
        0 <= i < s.len(),
        s[i].0@ == k,
        forall|j: int| 0 <= j < i ==> (#[trigger] s[j]).0@ != k,
    ensures
        doc_lookup(s, k) == Some(s[i].1),
    decreases i,
{
    if i == 0 {
    } else {
        let t = s.drop_first();
        assert(forall|j: int| 0 <= j < t.len() ==> #[trigger] t[j] == s[j + 1]);
        lemma_doc_lookup_at(t, k, i - 1);
    }
}

proof fn lemma_obj_lookup_at(s: Seq<(String, JLeaf)>, k: Seq<char>, i: int)
    requires
        0 <= i < s.len(),
        s[i].0@ == k,
        forall|j: int| 0 <= j < i ==> (#[trigger] s[j]).0@ != k,
    ensures
        obj_lookup(s, k) == Some(s[i].1),
    decreases i,
{
    if i == 0 {
    } else {
        let t = s.drop_first();
        assert(forall|j: int| 0 <= j < t.len() ==> #[trigger] t[j] == s[j + 1]);
        lemma_obj_lookup_at(t, k, i - 1);
    }
}

proof fn lemma_unknown_doc_skip_recognized(s: Seq<(String, JField)>, n: int)
    requires
        0 <= n <= s.len(),
        forall|j: int| 0 <= j < n ==> recognized_config_key((#[trigger] s[j]).0@),
    ensures
        unknown_doc_entries(s) == unknown_doc_entries(s.skip(n)),
    decreases n,
{
    if n == 0 {
        assert(s.skip(0) =~= s);
    } else {
        let t = s.drop_first();
        assert(forall|j: int| 0 <= j < t.len() ==> #[trigger] t[j] == s[j + 1]);
        lemma_unknown_doc_skip_recognized(t, n - 1);
        assert(t.skip(n - 1) =~= s.skip(n));
    }
}

proof fn lemma_unknown_doc_id(s: Seq<(String, JField)>)
    requires
        forall|j: int| 0 <= j < s.len() ==> !recognized_config_key((#[trigger] s[j]).0@),
    ensures
        unknown_doc_entries(s) == s,
    decreases s.len(),
{
    if s.len() == 0 {
    } else {
        let t = s.drop_first();
        assert(forall|j: int| 0 <= j < t.len() ==> #[trigger] t[j] == s[j + 1]);
        lemma_unknown_doc_id(t);
        assert(seq![s[0]] + t =~= s);
    }
}

proof fn lemma_unknown_obj_skip_recognized(s: Seq<(String, JLeaf)>, n: int)
    requires
        0 <= n <= s.len(),
        forall|j: int| 0 <= j < n ==> recognized_profile_key((#[trigger] s[j]).0@),
    ensures
        unknown_obj_entries(s) == unknown_obj_entries(s.skip(n)),
    decreases n,
{
    if n == 0 {
        assert(s.skip(0) =~= s);
    } else {
        let t = s.drop_first();
        assert(forall|j: int| 0 <= j < t.len() ==> #[trigger] t[j] == s[j + 1]);
        lemma_unknown_obj_skip_recognized(t, n - 1);
        assert(t.skip(n - 1) =~= s.skip(n));
    }
}

proof fn lemma_unknown_obj_id(s: Seq<(String, JLeaf)>)
    requires
        forall|j: int| 0 <= j < s.len() ==> !recognized_profile_key((#[trigger] s[j]).0@),
    ensures
        unknown_obj_entries(s) == s,
    decreases s.len(),
{
    if s.len() == 0 {
    } else {
        let t = s.drop_first();
        assert(forall|j: int| 0 <= j < t.len() ==> #[trigger] t[j] == s[j + 1]);
        lemma_unknown_obj_id(t);
        assert(seq![s[0]] + t =~= s);
    }
}

proof fn lemma_unknown_doc_keys(s: Seq<(String, JField)>)
    ensures
        forall|k: int| 0 <= k < unknown_doc_entries(s).len() ==> !recognized_config_key(
            (#[trigger] unknown_doc_entries(s)[k]).0@,
        ),
    decreases s.len(),
{
    if s.len() == 0 {
    } else {
        let t = s.drop_first();
        lemma_unknown_doc_keys(t);
        let u = unknown_doc_entries(s);
        if !recognized_config_key(s[0].0@) {
            assert forall|k: int| 0 <= k < u.len() implies !recognized_config_key(
                (#[trigger] u[k]).0@,
            ) by {
                if k == 0 {
                    assert(u[0] == s[0]);
                } else {
                    assert(u[k] == unknown_doc_entries(t)[k - 1]);
                }
            }
        } else {
            assert forall|k: int| 0 <= k < u.len() implies !recognized_config_key(
                (#[trigger] u[k]).0@,
            ) by {
                assert(u[k] == unknown_doc_entries(t)[k]);
            }
        }
    }
}

proof fn lemma_unknown_obj_keys(s: Seq<(String, JLeaf)>)
    ensures
        forall|k: int| 0 <= k < unknown_obj_entries(s).len() ==> !recognized_profile_key(
            (#[trigger] unknown_obj_entries(s)[k]).0@,
        ),
    decreases s.len(),
{
    if s.len() == 0 {
    } else {
        let t = s.drop_first();
        lemma_unknown_obj_keys(t);
        let u = unknown_obj_entries(s);
        if !recognized_profile_key(s[0].0@) {
            assert forall|k: int| 0 <= k < u.len() implies !recognized_profile_key(
                (#[trigger] u[k]).0@,
            ) by {
                if k == 0 {
                    assert(u[0] == s[0]);
                } else {
                    assert(u[k] == unknown_obj_entries(t)[k - 1]);
                }
            }
        } else {
            assert forall|k: int| 0 <= k < u.len() implies !recognized_profile_key(
                (#[trigger] u[k]).0@,
            ) by {
                assert(u[k] == unknown_obj_entries(t)[k]);
            }
        }
    }
}

/// Where each named entry of a written-out profile is found, and that the
/// written-out form fits the schema again.
proof fn lemma_encoded_profile_lookups(p: Profile, o: Seq<(String, JLeaf)>)
    requires
        profile_wf_for_save(p),
        encodes_profile(p, o),
    ensures
        obj_lookup(o, "name"@) == Some(o[0].1),
        obj_lookup(o, "gd-path"@) == Some(o[1].1),
        obj_lookup(o, "platform"@) == Some(o[2].1),
        unknown_obj_entries(o) == o.skip(3),
        is_profile_obj(o),
{
    reveal_strlit("name");
    reveal_strlit("gd-path");
    reveal_strlit("platform");
    assert("name"@.len() == 4);
    assert("gd-path"@.len() == 7);
    assert("platform"@.len() == 8);
    lemma_obj_lookup_at(o, "name"@, 0);
    assert(o[0].0@ != "gd-path"@);
    lemma_obj_lookup_at(o, "gd-path"@, 1);
    assert(o[0].0@ != "platform"@ && o[1].0@ != "platform"@);
    lemma_obj_lookup_at(o, "platform"@, 2);
    assert forall|j: int| 0 <= j < 3 implies recognized_profile_key((#[trigger] o[j]).0@) by {}
    lemma_unknown_obj_skip_recognized(o, 3);
    assert forall|j: int| 0 <= j < o.skip(3).len() implies !recognized_profile_key(
        (#[trigger] o.skip(3)[j]).0@,
    ) by {
        assert(o.skip(3)[j] == o[3 + j]);
        assert(o[3 + j] == p.other@[j]);
    }
    lemma_unknown_obj_id(o.skip(3));
}

/// Saving a profile and reading its object back yields the same profile.
proof fn lemma_profile_round_trip(p: Profile, o: Seq<(String, JLeaf)>, p2: Profile, host: HostOs)
    requires
        profile_wf_for_save(p),
        encodes_profile(p, o),
        parses_profile(o, host, p2),
    ensures
        profile_equiv(p2, p),
{
    lemma_encoded_profile_lookups(p, o);
    assert(p2.other@ == o.skip(3));
    assert(o.skip(3) =~= p.other@) by {
        assert forall|k: int| 0 <= k < p.other@.len() implies o.skip(3)[k] == p.other@[k] by {
            assert(o.skip(3)[k] == o[3 + k]);
        }
    }
}

/// Where each named field of a written-out document is found, and that the
/// written-out form fits the schema again.
proof fn lemma_encoded_config_lookups(c: Config, s: Seq<(String, JField)>)
    requires
        config_wf_for_save(c),
        encodes_config(c, s),
    ensures
        doc_lookup(s, "current-profile"@) == Some(s[0].1),
        doc_lookup(s, "profiles"@) == Some(s[1].1),
        doc_lookup(s, "default-developer"@) == Some(s[2].1),
        doc_lookup(s, "sdk-nightly"@) == Some(s[3].1),
        doc_lookup(s, "sdk-version"@) == Some(s[4].1),
        doc_lookup(s, "index-token"@) == Some(s[5].1),
        doc_lookup(s, "index-url"@) == Some(s[6].1),
        unknown_doc_entries(s) == s.skip(7),
{
    reveal_strlit("current-profile");
    reveal_strlit("profiles");
    reveal_strlit("default-developer");
    reveal_strlit("sdk-nightly");
    reveal_strlit("sdk-version");
    reveal_strlit("index-token");
    reveal_strlit("index-url");
    assert("current-profile"@.len() == 15);
    assert("profiles"@.len() == 8);
    assert("default-developer"@.len() == 17);
    assert("sdk-nightly"@.len() == 11);
    assert("sdk-version"@.len() == 11);
    assert("index-token"@.len() == 11);
    assert("index-url"@.len() == 9);
    assert("sdk-nightly"@ != "sdk-version"@) by {
        assert("sdk-nightly"@[4] != "sdk-version"@[4]);
    }
    assert("sdk-nightly"@ != "index-token"@) by {
        assert("sdk-nightly"@[0] != "index-token"@[0]);
    }
    assert("sdk-version"@ != "index-token"@) by {
        assert("sdk-version"@[0] != "index-token"@[0]);
    }
    lemma_doc_lookup_at(s, "current-profile"@, 0);
    lemma_doc_lookup_at(s, "profiles"@, 1);
    lemma_doc_lookup_at(s, "default-developer"@, 2);
    lemma_doc_lookup_at(s, "sdk-nightly"@, 3);
    lemma_doc_lookup_at(s, "sdk-version"@, 4);
    lemma_doc_lookup_at(s, "index-token"@, 5);
    lemma_doc_lookup_at(s, "index-url"@, 6);
    assert forall|j: int| 0 <= j < 7 implies recognized_config_key((#[trigger] s[j]).0@) by {}
    lemma_unknown_doc_skip_recognized(s, 7);
    assert forall|j: int| 0 <= j < s.skip(7).len() implies !recognized_config_key(
        (#[trigger] s.skip(7)[j]).0@,
    ) by {
        assert(s.skip(7)[j] == s[7 + j]);
        assert(s[7 + j].0 == c.other@[j].0);
    }
    lemma_unknown_doc_id(s.skip(7));
}

/// A saved well-formed document is accepted by the schema again.
pub proof fn lemma_encode_accepted(c: Config, s: Seq<(String, JField)>)
    requires
        config_wf_for_save(c),
        encodes_config(c, s),
    ensures
        is_config_doc(s),
{
    lemma_encoded_config_lookups(c, s);
    match s[1].1 {
        JField::Objs(v) => {
            assert forall|i: int| 0 <= i < v@.len() implies is_profile_obj(
                #[trigger] v@[i].entries@,
            ) by {
                lemma_encoded_profile_lookups(c.profiles@[i], v@[i].entries@);
            }
        },
        _ => {},
    }
}

/// Every parsed document is well-formed for saving: passthrough entries
/// never use a recognized key.
pub proof fn lemma_parses_config_wf(s: Seq<(String, JField)>, host: HostOs, c: Config)
    requires
        parses_config(s, host, c),
    ensures
        config_wf_for_save(c),
{
    lemma_unknown_doc_keys(s);
    assert forall|k: int| 0 <= k < c.other@.len() implies !recognized_config_key(
        (#[trigger] c.other@[k]).0@,
    ) by {
        assert(c.other@[k].0 == unknown_doc_entries(s)[k].0);
    }
    match doc_lookup(s, "profiles"@) {
        Some(JField::Objs(v)) => {
            assert forall|i: int| 0 <= i < c.profiles@.len() implies profile_wf_for_save(
                #[trigger] c.profiles@[i],
            ) by {
                assert(parses_profile(v@[i].entries@, host, c.profiles@[i]));
                lemma_unknown_obj_keys(v@[i].entries@);
            }
        },
        _ => {
            assert(false);
        },
    }
}

/// The round-trip law for one save: a well-formed document written out and
/// parsed back holds the same data.
pub proof fn lemma_save_load_round_trip(
    c: Config,
    s: Seq<(String, JField)>,
    c2: Config,
    host: HostOs,
)
    requires
        config_wf_for_save(c),
        encodes_config(c, s),
        parses_config(s, host, c2),
    ensures
        config_equiv(c2, c),
{
    lemma_encoded_config_lookups(c, s);
    match s[1].1 {
        JField::Objs(v) => {
            assert forall|i: int| 0 <= i < c2.profiles@.len() implies profile_equiv(
                #[trigger] c2.profiles@[i],
                c.profiles@[i],
            ) by {
                assert(parses_profile(v@[i].entries@, host, c2.profiles@[i]));
                assert(encodes_profile(c.profiles@[i], v@[i].entries@));
                lemma_profile_round_trip(c.profiles@[i], v@[i].entries@, c2.profiles@[i], host);
            }
        },
        _ => {
            assert(false);
        },
    }
    assert(pairs_equiv(c2.other@, c.other@)) by {
        let u = unknown_doc_entries(s);
        assert(u == s.skip(7));
        assert forall|k: int| 0 <= k < c2.other@.len() implies (#[trigger] c2.other@[k]).0
            == c.other@[k].0 && field_equiv(c2.other@[k].1, c.other@[k].1) by {
            assert(u[k] == s[7 + k]);
            assert(c2.other@[k].0 == u[k].0 && field_equiv(c2.other@[k].1, u[k].1));
            assert(s[7 + k].0 == c.other@[k].0 && field_equiv(s[7 + k].1, c.other@[k].1));
            crate::doc::lemma_field_equiv_trans(c2.other@[k].1, s[7 + k].1, c.other@[k].1);
        }
    }
}

// ---------------------------------------------------------------------------
// The loader
// ---------------------------------------------------------------------------

/// What the caller found at the backing file's location: no file, a JSON
/// object, or text that is not a JSON object at all.
pub enum ConfigFile {
    Absent,
    Present(JDoc),
    Unparsable,
}

/// The one fatal load failure: a file that fits neither schema, where no
/// safe default exists.
#[derive(PartialEq, Eq, Structural, Clone, Copy, Debug)]
pub enum LoadError {
    ConfigCorrupt,
}

/// A loaded document, and whether the caller must persist it at once (so a
/// migration or platform rewrite survives even a failing command).
pub struct Loaded {
    pub config: Config,
    pub needs_save: bool,
}

/// How a document relates to its platform-normalized form.
pub open spec fn normalizes_to(c0: Config, c1: Config, host: HostOs) -> bool {
    &&& c1.profiles@.len() == c0.profiles@.len()
    &&& forall|i: int| 0 <= i < c0.profiles@.len() ==> normalized_profile(
        c0.profiles@[i],
        #[trigger] c1.profiles@[i],
        host,
    )
    &&& c1.current_profile == c0.current_profile
    &&& c1.default_developer == c0.default_developer
    &&& c1.sdk_nightly == c0.sdk_nightly
    &&& c1.sdk_version == c0.sdk_version
    &&& c1.index_token == c0.index_token
    &&& c1.index_url == c0.index_url
    &&& c1.other@ == c0.other@
}

/// No profile still carries the legacy ambiguous `mac` tag.
pub open spec fn no_mac_profiles(c: Config) -> bool {
    forall|i: int| 0 <= i < c.profiles@.len() ==> (#[trigger] c.profiles@[i]).platform@ != "mac"@
}

/// Loads the Config Document: a fresh document when the data root or the
/// backing file is absent; the current schema when it fits, else the legacy
/// schema migrated, else a fatal failure. Every profile's legacy `mac` tag
/// is rewritten before the document is returned, and `needs_save` tells the
/// caller to persist at once, so a migration or rewrite survives even when
/// the command that follows fails. The caller then validates the
/// current-profile pointer with `fix_current_profile`, after saving.
pub fn load_config(root_exists: bool, file: ConfigFile, host: HostOs) -> (r: Result<
    Loaded,
    LoadError,
>)
    ensures
        !root_exists ==> (r matches Ok(l) && is_fresh_config(l.config) && !l.needs_save),
        (root_exists && file is Absent) ==> (r matches Ok(l) && is_fresh_config(l.config)
            && l.needs_save),
        (root_exists && file is Unparsable) ==> r == Err::<Loaded, LoadError>(
            LoadError::ConfigCorrupt,
        ),
        root_exists ==> (match file {
            ConfigFile::Present(d) => {
                if is_config_doc(d.entries@) {
                    r matches Ok(l) && l.needs_save && (exists|c0: Config|
                        parses_config(d.entries@, host, c0) && normalizes_to(c0, l.config, host))
                } else if is_old_doc(d.entries@) {
                    r matches Ok(l) && l.needs_save && (exists|oc: OldConfig, c0: Config|
                        parses_old(d.entries@, oc) && migrates_to(oc, c0) && normalizes_to(
                            c0,
                            l.config,
                            host,
                        ))
                } else {
                    r == Err::<Loaded, LoadError>(LoadError::ConfigCorrupt)
                }
            },
            _ => true,
        }),
        r matches Ok(l) ==> no_mac_profiles(l.config),
{
    if !root_exists {
        let l = Loaded { config: fresh_config(), needs_save: false };
        proof {
            lemma_fresh_no_mac(l.config);
        }
        return Ok(l);
    }
    match file {
        ConfigFile::Absent => {
            let l = Loaded { config: fresh_config(), needs_save: true };
            proof {
                lemma_fresh_no_mac(l.config);
            }
            Ok(l)
        },
        ConfigFile::Unparsable => Err(LoadError::ConfigCorrupt),
        ConfigFile::Present(d) => match config_from_doc(&d, host) {
            Some(c) => {
                let mut config = c;
                let ghost c0 = config;
                config.normalize_platforms(host);
                proof {
                    lemma_normalized_no_mac(c0, config, host);
                    assert(parses_config(d.entries@, host, c0) && normalizes_to(
                        c0,
                        config,
                        host,
                    ));
                }
                Ok(Loaded { config, needs_save: true })
            },
            None => match old_config_from_doc(&d) {
                Some(oc) => {
                    let mut config = oc.migrate();
                    let ghost c0 = config;
                    config.normalize_platforms(host);
                    proof {
                        lemma_normalized_no_mac(c0, config, host);
                        assert(parses_old(d.entries@, oc) && migrates_to(oc, c0)
                            && normalizes_to(c0, config, host));
                    }
                    Ok(Loaded { config, needs_save: true })
                },
                None => Err(LoadError::ConfigCorrupt),
            },
        },
    }
}

proof fn lemma_fresh_no_mac(c: Config)
    requires
        is_fresh_config(c),
    ensures
        no_mac_profiles(c),
{
}

proof fn lemma_normalized_no_mac(c0: Config, c1: Config, host: HostOs)
    requires
        normalizes_to(c0, c1, host),
    ensures
        no_mac_profiles(c1),
{
    reveal_strlit("mac");
    reveal_strlit("win");
    reveal_strlit("mac-intel");
    reveal_strlit("mac-arm");
    assert("mac"@.len() == 3);
    assert("win"@.len() == 3);
    assert("mac-intel"@.len() == 9);
    assert("mac-arm"@.len() == 7);
    assert("win"@ != "mac"@) by {
        assert("win"@[0] != "mac"@[0]);
    }
    assert forall|i: int| 0 <= i < c1.profiles@.len() implies (
    #[trigger] c1.profiles@[i]).platform@ != "mac"@ by {
        assert(normalized_profile(c0.profiles@[i], c1.profiles@[i], host));
        if c0.profiles@[i].platform@ == "mac"@ {
            assert(c1.profiles@[i].platform@ == spec_default_platform(host));
        }
    }
}

/// Round-trip law, load to load: a document loaded from file, saved without
/// mutation, is accepted again and comes back equal in every recognized
/// field, every passthrough key preserved.
pub proof fn lemma_config_round_trip(
    s0: Seq<(String, JField)>,
    host0: HostOs,
    c: Config,
    s1: Seq<(String, JField)>,
    host1: HostOs,
    c2: Config,
)
    requires
        parses_config(s0, host0, c),
        encodes_config(c, s1),
        parses_config(s1, host1, c2),
    ensures
        is_config_doc(s1),
        config_equiv(c2, c),
{
    lemma_parses_config_wf(s0, host0, c);
    lemma_encode_accepted(c, s1);
    lemma_save_load_round_trip(c, s1, c2, host1);
}

} // verus!
