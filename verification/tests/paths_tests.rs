use sapfire_config::config::Config;
use sapfire_config::paths::{
    config_file_path, migrate_location, profile_platform_default, sapfire_root, HostOs,
};
use sapfire_config::strutil::{path_file_name, path_join, path_parent, str_eq, strip_dot_exe};

#[test]
fn win_directory_gains_executable_name() {
    let r = migrate_location("C:/Games/GD", "win", true);
    assert_eq!(r, "C:/Games/GD/GeometryDash.exe");
}

#[test]
fn win_normalization_is_idempotent_on_its_own_output() {
    let once = migrate_location("C:/Games/GD", "win", true);
    // The output names a file, not a directory, so a second pass leaves it.
    let twice = migrate_location(&once, "win", false);
    assert_eq!(once, twice);
    assert_eq!(twice, "C:/Games/GD/GeometryDash.exe");
}

#[test]
fn contents_folder_is_stripped_to_bundle_root() {
    let r = migrate_location("/Applications/GD.app/Contents", "mac-arm", false);
    assert_eq!(r, "/Applications/GD.app");
}

#[test]
fn other_paths_pass_through_unchanged() {
    let r = migrate_location("/data/gd", "android64", false);
    assert_eq!(r, "/data/gd");
    let r = migrate_location("C:/Games/GD/GeometryDash.exe", "win", false);
    assert_eq!(r, "C:/Games/GD/GeometryDash.exe");
}

#[test]
fn default_platform_per_host() {
    assert_eq!(profile_platform_default(HostOs::Windows), "win");
    assert_eq!(profile_platform_default(HostOs::Linux), "win");
    assert_eq!(profile_platform_default(HostOs::Android), "win");
    assert_eq!(profile_platform_default(HostOs::MacIntel), "mac-intel");
    assert_eq!(profile_platform_default(HostOs::MacArm), "mac-arm");
}

#[test]
fn mac_data_root_is_the_shared_folder() {
    assert_eq!(sapfire_root(HostOs::MacIntel).unwrap(), "/Users/Shared/Sapfire");
    assert_eq!(sapfire_root(HostOs::MacArm).unwrap(), "/Users/Shared/Sapfire");
}

#[test]
fn non_mac_data_root_sits_under_the_local_data_directory() {
    // The base comes from the environment; whatever it is, the root is its
    // `Sapfire` subdirectory.
    if let Some(root) = sapfire_root(HostOs::Linux) {
        assert!(root.ends_with("/Sapfire"));
    }
}

#[test]
fn derived_paths_under_the_root() {
    assert_eq!(Config::cross_tools_path("/root/dir"), "/root/dir/cross-tools");
    assert_eq!(config_file_path("/root/dir"), "/root/dir/config.json");
}

#[test]
fn string_helpers() {
    assert!(str_eq("abc", "abc"));
    assert!(!str_eq("abc", "abd"));
    assert!(!str_eq("abc", "ab"));
    assert_eq!(path_join("a", "b"), "a/b");
    assert_eq!(path_parent("a/b/c"), "a/b");
    assert_eq!(path_parent("noseparator"), "");
    assert_eq!(path_file_name("a/b/c"), "c");
    assert_eq!(path_file_name("noseparator"), "noseparator");
    assert_eq!(strip_dot_exe("Foo.exe"), "Foo");
    assert_eq!(strip_dot_exe("Foo"), "Foo");
    assert_eq!(strip_dot_exe(".exe"), "");
}
