//! Path resolver: pure functions computing the tool's canonical filesystem
//! locations from the host's identity and a platform tag.
//!
//! Filesystem facts the resolver cannot know (whether a user-supplied path is
//! a directory) are handed in as plain values by the caller.

use vstd::prelude::*;

use crate::strutil::{
    file_name_of, is_last_sep, join_seq, last_sep, lemma_last_sep_exists, lemma_last_sep_unique,
    parent_of, path_file_name, path_join, path_parent, spec_ends_with, str_eq,
};

verus! {

/// The host operating system and processor family, as resolved at startup by
/// the (unverified) entry point.
#[derive(Clone, Copy, PartialEq, Eq, Structural, Debug)]
pub enum HostOs {
    Windows,
    Linux,
    Android,
    MacIntel,
    MacArm,
}

/// The platform tag a newly created profile receives on this host.
pub open spec fn spec_default_platform(host: HostOs) -> Seq<char> {
    match host {
        HostOs::MacIntel => "mac-intel"@,
        HostOs::MacArm => "mac-arm"@,
        _ => "win"@,
    }
}

/// The platform tag a newly created profile receives on this host.
pub fn profile_platform_default(host: HostOs) -> (r: String)
    ensures
        r@ == spec_default_platform(host),
{
    match host {
        HostOs::MacIntel => "mac-intel".to_owned(),
        HostOs::MacArm => "mac-arm".to_owned(),
        _ => "win".to_owned(),
    }
}

/// Relies on dirs::data_local_dir: the OS-defined local-data directory of the
/// current user, when the OS and environment define one. The result depends
/// on the environment, so nothing is promised of it.
#[verifier::external_body]
fn data_local_dir_string() -> (r: Option<String>) {
    dirs::data_local_dir().and_then(|p| p.into_os_string().into_string().ok())
}

/// The OS-specific base directory for this tool's persisted state: the shared
/// `/Users/Shared/Sapfire` folder on macOS, a `Sapfire` folder under the
/// user's local-data directory elsewhere. `None` when the environment does
/// not define a local-data directory.
pub fn sapfire_root(host: HostOs) -> (r: Option<String>)
    ensures
        (host == HostOs::MacIntel || host == HostOs::MacArm) ==> (r matches Some(p) && p@
            == "/Users/Shared/Sapfire"@),
        r matches Some(p) ==> spec_ends_with(p@, "/Sapfire"@),
{
    match host {
        HostOs::MacIntel | HostOs::MacArm => {
            let p = "/Users/Shared/Sapfire".to_owned();
            proof {
                reveal_strlit("/Users/Shared/Sapfire");
                reveal_strlit("/Sapfire");
                assert(spec_ends_with(p@, "/Sapfire"@)) by {
                    assert(p@.subrange(p@.len() - "/Sapfire"@.len(), p@.len() as int)
                        =~= "/Sapfire"@);
                }
            }
            Some(p)
        },
        _ => {
            match data_local_dir_string() {
                Some(base) => {
                    let p = path_join(base.as_str(), "Sapfire");
                    proof {
                        reveal_strlit("Sapfire");
                        reveal_strlit("/Sapfire");
                        assert(spec_ends_with(p@, "/Sapfire"@)) by {
                            assert(p@.subrange(p@.len() - "/Sapfire"@.len(), p@.len() as int)
                                =~= "/Sapfire"@);
                        }
                    }
                    Some(p)
                },
                None => None,
            }
        },
    }
}

/// The backing file of the persisted Config Document, under the data root.
pub fn config_file_path(root: &str) -> (r: String)
    ensures
        r@ == join_seq(root@, "config.json"@),
{
    path_join(root, "config.json")
}

/// What `migrate_location` turns a raw install path into.
pub open spec fn spec_migrate_location(path: Seq<char>, platform: Seq<char>, path_is_dir: bool) -> Seq<char> {
    if platform == "win"@ && path_is_dir {
        join_seq(path, "GeometryDash.exe"@)
    } else if file_name_of(path) == "Contents"@ {
        parent_of(path)
    } else {
        path
    }
}

/// Canonicalizes a user-supplied install path: on `win`, a directory gains
/// the known executable's filename; a path ending in the macOS bundle's
/// internal `Contents` folder is stripped back to the bundle root; anything
/// else is returned unchanged. The caller reports whether `path` is a
/// directory, and is expected to warn (without failing) when the returned
/// `win` path does not exist on disk.
pub fn migrate_location(path: &str, platform: &str, path_is_dir: bool) -> (r: String)
    ensures
        r@ == spec_migrate_location(path@, platform@, path_is_dir),
{
    if str_eq(platform, "win") && path_is_dir {
        path_join(path, "GeometryDash.exe")
    } else {
        let name = path_file_name(path);
        if str_eq(name.as_str(), "Contents") {
            path_parent(path)
        } else {
            path.to_owned()
        }
    }
}

/// The known executable's filename never holds a separator, so appending it
/// fixes the file name of the result.
proof fn lemma_exe_file_name(path: Seq<char>)
    ensures
        file_name_of(join_seq(path, "GeometryDash.exe"@)) == "GeometryDash.exe"@,
{
    reveal_strlit("GeometryDash.exe");
    let exe = "GeometryDash.exe"@;
    let s = join_seq(path, exe);
    assert(s[path.len() as int] == '/');
    assert forall|j: int| path.len() < j < s.len() implies s[j] != '/' by {
        assert(s[j] == exe[j - path.len() - 1]);
    }
    assert(is_last_sep(s, path.len() as int));
    lemma_last_sep_exists(s);
    lemma_last_sep_unique(s, path.len() as int, last_sep(s));
    assert(file_name_of(s) =~= exe);
}

/// On `win`, normalizing a directory path appends the known executable's
/// filename exactly once, and normalizing the result again (now a file, not
/// a directory) leaves it unchanged.
pub proof fn lemma_migrate_location_win_idempotent(path: Seq<char>)
    ensures
        spec_migrate_location(path, "win"@, true) == join_seq(path, "GeometryDash.exe"@),
        spec_migrate_location(join_seq(path, "GeometryDash.exe"@), "win"@, false) == join_seq(
            path,
            "GeometryDash.exe"@,
        ),
{
    lemma_exe_file_name(path);
    reveal_strlit("GeometryDash.exe");
    reveal_strlit("Contents");
    assert("GeometryDash.exe"@.len() == 16);
    assert("Contents"@.len() == 8);
}

} // verus!
