use sapfire_config::config::{Config, Profile};
use sapfire_config::orchestrate::{
    plan_build, should_run_build, BuildError, BuildOptions, BuildPlan, ConfigureOutcome,
    Toolchain,
};
use sapfire_config::sdk::SdkError;

#[test]
fn sdk_path_valid_configuration_is_returned_unchanged() {
    let r = Config::try_sdk_path(Some("/sdk".to_string()), true, true);
    assert_eq!(r.ok(), Some("/sdk".to_string()));
    assert_eq!(Config::sdk_path(Some("/sdk".to_string()), true, true), "/sdk");
}

#[test]
fn sdk_path_unset_variable() {
    let r = Config::try_sdk_path(None, false, false);
    assert_eq!(r.err(), Some(SdkError::NotConfigured));
}

#[test]
fn sdk_path_not_a_directory() {
    let r = Config::try_sdk_path(Some("/sdk".to_string()), false, false);
    assert_eq!(r.err(), Some(SdkError::PathInvalid));
}

#[test]
fn sdk_path_missing_version_marker() {
    let r = Config::try_sdk_path(Some("/sdk".to_string()), true, false);
    assert_eq!(r.err(), Some(SdkError::Corrupt));
}

#[test]
fn sdk_error_hints_name_a_remediation() {
    assert!(SdkError::NotConfigured.hint().contains("sapfire sdk install"));
    assert!(SdkError::PathInvalid.hint().contains("sapfire sdk set-path"));
    assert!(SdkError::Corrupt.hint().contains("--reinstall"));
}

fn win_profile() -> Profile {
    Profile {
        name: "p".to_string(),
        gd_path: "C:/GD/GeometryDash.exe".to_string(),
        platform: "win".to_string(),
        other: Vec::new(),
    }
}

fn opts(configure_only: bool, build_only: bool) -> BuildOptions {
    BuildOptions {
        configure_only,
        build_only,
        ndk: None,
        extra_conf_args: Vec::new(),
    }
}

fn plan(o: &BuildOptions) -> Result<BuildPlan, BuildError> {
    plan_build(
        &win_profile(),
        &"win".to_string(),
        "/sdk".to_string(),
        None,
        o,
    )
}

#[test]
fn conflicting_flags_reject_before_any_phase() {
    assert_eq!(plan(&opts(true, true)).err(), Some(BuildError::ConflictingFlags));
}

#[test]
fn configure_only_plans_exactly_one_phase() {
    let p = plan(&opts(true, false)).unwrap();
    assert!(p.configure.is_some());
    assert!(p.build_dir.is_none());
    assert!(!should_run_build(&p, &ConfigureOutcome::Succeeded));
}

#[test]
fn build_only_skips_the_configure_phase() {
    let p = plan(&opts(false, true)).unwrap();
    assert!(p.configure.is_none());
    assert_eq!(p.build_dir.as_deref(), Some("C:/GD"));
    assert!(should_run_build(&p, &ConfigureOutcome::Skipped));
}

#[test]
fn failed_configure_prevents_the_build_phase() {
    let p = plan(&opts(false, false)).unwrap();
    assert!(p.configure.is_some());
    assert!(p.build_dir.is_some());
    assert!(should_run_build(&p, &ConfigureOutcome::Succeeded));
    assert!(!should_run_build(&p, &ConfigureOutcome::Failed(2)));
}

#[test]
fn unknown_platform_is_rejected() {
    let r = plan_build(
        &win_profile(),
        &"atari".to_string(),
        "/sdk".to_string(),
        None,
        &opts(false, false),
    );
    assert_eq!(r.err(), Some(BuildError::UnknownPlatform));
}

#[test]
fn android_without_cross_tools_is_rejected() {
    let p = Profile {
        name: "a".to_string(),
        gd_path: "/data/gd".to_string(),
        platform: "android64".to_string(),
        other: Vec::new(),
    };
    let r = plan_build(&p, &"android64".to_string(), "/sdk".to_string(), None, &opts(false, false));
    assert_eq!(r.err(), Some(BuildError::CrossToolsMissing));
}

#[test]
fn android_selects_the_cross_toolchain() {
    let p = Profile {
        name: "a".to_string(),
        gd_path: "/data/gd".to_string(),
        platform: "android32".to_string(),
        other: Vec::new(),
    };
    let o = BuildOptions {
        configure_only: false,
        build_only: false,
        ndk: Some("r26".to_string()),
        extra_conf_args: Vec::new(),
    };
    let plan = plan_build(
        &p,
        &"android32".to_string(),
        "/sdk".to_string(),
        Some("/root/cross-tools".to_string()),
        &o,
    )
    .unwrap();
    match &plan.configure.as_ref().unwrap().toolchain {
        Toolchain::AndroidCross { toolchain_dir } => {
            assert_eq!(toolchain_dir, "/root/cross-tools/r26");
        }
        Toolchain::Native => panic!("expected a cross toolchain"),
    }
}

#[test]
fn passthrough_arguments_come_last() {
    let o = BuildOptions {
        configure_only: true,
        build_only: false,
        ndk: None,
        extra_conf_args: vec!["-DFOO=1".to_string(), "-DBAR=2".to_string()],
    };
    let plan = plan(&o).unwrap();
    let phase = plan.configure.unwrap();
    let argv = phase.argv();
    assert_eq!(
        argv,
        vec![
            "C:/GD".to_string(),
            "/sdk".to_string(),
            "-DFOO=1".to_string(),
            "-DBAR=2".to_string(),
        ]
    );
}
