use sapfire_config::config::{
    Config, OldConfig, OldConfigInstallation, Profile, RenameError,
};
use sapfire_config::paths::HostOs;

fn profile(name: &str, gd_path: &str, platform: &str) -> Profile {
    Profile {
        name: name.to_string(),
        gd_path: gd_path.to_string(),
        platform: platform.to_string(),
        other: Vec::new(),
    }
}

fn config_with(profiles: Vec<Profile>, current: Option<&str>) -> Config {
    Config {
        current_profile: current.map(|s| s.to_string()),
        profiles,
        default_developer: None,
        sdk_nightly: false,
        sdk_version: None,
        index_token: None,
        index_url: "https://api.sapfire-sdk.org".to_string(),
        other: Vec::new(),
    }
}

#[test]
fn new_profile_normalizes_win_directory() {
    let p = Profile::new(
        "main".to_string(),
        "C:/Games/GD".to_string(),
        "win".to_string(),
        true,
    );
    assert_eq!(p.name, "main");
    assert_eq!(p.platform, "win");
    assert_eq!(p.gd_path, "C:/Games/GD/GeometryDash.exe");
}

#[test]
fn profile_directories_per_platform() {
    let w = profile("w", "C:/Games/GD/GeometryDash.exe", "win");
    assert_eq!(w.gd_dir(), "C:/Games/GD");
    assert_eq!(w.sapfire_dir(), "C:/Games/GD/sapfire");
    assert_eq!(w.mods_dir(), "C:/Games/GD/sapfire/mods");

    let a = profile("a", "/data/app/gd", "android32");
    assert_eq!(a.gd_dir(), "/data/app/gd");
    assert_eq!(a.sapfire_dir(), "/data/app/gd/game/sapfire");
    assert_eq!(a.mods_dir(), "/data/app/gd/game/sapfire/mods");

    let m = profile("m", "/Applications/GD.app", "mac-arm");
    assert_eq!(m.gd_dir(), "/Applications/GD.app");
    assert_eq!(m.sapfire_dir(), "/Applications/GD.app/Contents/sapfire");
    assert_eq!(m.platform_str(), "mac-arm");
}

#[test]
fn migration_of_one_windows_installation() {
    let old = OldConfig {
        default_installation: 0,
        working_installation: None,
        installations: Some(vec![OldConfigInstallation {
            path: "/gd".to_string(),
            executable: "Foo.exe".to_string(),
        }]),
        default_developer: Some("dev".to_string()),
    };
    let c = old.migrate();
    assert_eq!(c.profiles.len(), 1);
    assert_eq!(c.profiles[0].name, "Foo");
    assert_eq!(c.profiles[0].platform, "win");
    assert_eq!(c.profiles[0].gd_path, "/gd");
    assert_eq!(c.current_profile, Some("Foo".to_string()));
    assert_eq!(c.default_developer, Some("dev".to_string()));
    assert!(!c.sdk_nightly);
    assert_eq!(c.sdk_version, None);
    assert_eq!(c.index_token, None);
    assert_eq!(c.index_url, "https://api.sapfire-sdk.org");
}

#[test]
fn migration_prefers_working_installation_and_handles_bad_index() {
    let old = OldConfig {
        default_installation: 0,
        working_installation: Some(1),
        installations: Some(vec![
            OldConfigInstallation {
                path: "/a".to_string(),
                executable: "A.exe".to_string(),
            },
            OldConfigInstallation {
                path: "/b".to_string(),
                executable: "B".to_string(),
            },
        ]),
        default_developer: None,
    };
    let c = old.migrate();
    assert_eq!(c.current_profile, Some("B".to_string()));

    let old = OldConfig {
        default_installation: 5,
        working_installation: None,
        installations: None,
        default_developer: None,
    };
    let c = old.migrate();
    assert_eq!(c.profiles.len(), 0);
    assert_eq!(c.current_profile, None);
}

#[test]
fn get_profile_finds_first_match() {
    let c = config_with(vec![profile("a", "/a", "win"), profile("b", "/b", "win")], Some("b"));
    assert_eq!(c.get_profile(&Some("b".to_string())), Some(1));
    assert_eq!(c.get_profile(&Some("missing".to_string())), None);
    assert_eq!(c.get_profile(&None), None);
    let cur = c.get_current_profile();
    assert_eq!(cur.name, "b");
}

#[test]
fn rename_profile_happy_path() {
    let mut c = config_with(vec![profile("a", "/a", "win"), profile("b", "/b", "win")], None);
    assert_eq!(c.rename_profile("a", "c".to_string()), Ok(()));
    assert_eq!(c.profiles[0].name, "c");
    assert_eq!(c.profiles[0].gd_path, "/a");
    assert_eq!(c.profiles[1].name, "b");
}

#[test]
fn rename_profile_to_its_own_name_fails_without_mutation() {
    let mut c = config_with(vec![profile("a", "/a", "win")], None);
    assert_eq!(c.rename_profile("a", "a".to_string()), Err(RenameError::NameTaken));
    assert_eq!(c.profiles[0].name, "a");
    assert_eq!(c.profiles[0].gd_path, "/a");
}

#[test]
fn rename_profile_to_taken_name_fails_without_mutation() {
    let mut c = config_with(vec![profile("a", "/a", "win"), profile("b", "/b", "win")], None);
    assert_eq!(c.rename_profile("a", "b".to_string()), Err(RenameError::NameTaken));
    assert_eq!(c.profiles[0].name, "a");
    assert_eq!(c.profiles[1].name, "b");
}

#[test]
fn rename_profile_unknown_name_fails() {
    let mut c = config_with(vec![profile("a", "/a", "win")], None);
    assert_eq!(c.rename_profile("x", "y".to_string()), Err(RenameError::NotFound));
    assert_eq!(c.profiles[0].name, "a");
}

#[test]
fn fix_current_profile_self_heals() {
    let mut c = config_with(vec![profile("a", "/a", "win")], Some("gone"));
    c.fix_current_profile();
    assert_eq!(c.current_profile, Some("a".to_string()));

    let mut c = config_with(vec![profile("a", "/a", "win")], Some("a"));
    c.fix_current_profile();
    assert_eq!(c.current_profile, Some("a".to_string()));

    let mut c = config_with(Vec::new(), Some("gone"));
    c.fix_current_profile();
    assert_eq!(c.current_profile, None);

    let mut c = config_with(vec![profile("a", "/a", "win")], None);
    c.fix_current_profile();
    assert_eq!(c.current_profile, Some("a".to_string()));
}

#[test]
fn normalize_platforms_rewrites_legacy_mac_tag() {
    let mut c = config_with(
        vec![profile("m", "/gd", "mac"), profile("w", "/w/x.exe", "win")],
        None,
    );
    c.normalize_platforms(HostOs::MacArm);
    assert_eq!(c.profiles[0].platform, "mac-arm");
    assert_eq!(c.profiles[1].platform, "win");

    let mut c = config_with(vec![profile("m", "/gd", "mac")], None);
    c.normalize_platforms(HostOs::MacIntel);
    assert_eq!(c.profiles[0].platform, "mac-intel");
}
