use sapfire_config::codec::{
    config_from_doc, config_to_doc, load_config, old_config_from_doc, ConfigFile, LoadError,
};
use sapfire_config::config::{Config, Profile};
use sapfire_config::doc::{JDoc, JField, JLeaf, JObj};
use sapfire_config::paths::HostOs;

fn leaf_str(s: &str) -> JField {
    JField::Leaf(JLeaf::Str(s.to_string()))
}

fn obj(entries: Vec<(&str, JLeaf)>) -> JObj {
    JObj {
        entries: entries.into_iter().map(|(k, v)| (k.to_string(), v)).collect(),
    }
}

fn current_schema_doc() -> JDoc {
    JDoc {
        entries: vec![
            ("current-profile".to_string(), leaf_str("main")),
            (
                "profiles".to_string(),
                JField::Objs(vec![obj(vec![
                    ("name", JLeaf::Str("main".to_string())),
                    ("gd-path", JLeaf::Str("/gd".to_string())),
                    ("platform", JLeaf::Str("win".to_string())),
                    ("future-field", JLeaf::Int(3)),
                ])]),
            ),
            ("default-developer".to_string(), JField::Leaf(JLeaf::Null)),
            ("sdk-nightly".to_string(), JField::Leaf(JLeaf::Bool(true))),
            ("sdk-version".to_string(), leaf_str("2.0.0")),
            ("index-token".to_string(), JField::Leaf(JLeaf::Null)),
            ("index-url".to_string(), leaf_str("https://example.test")),
            ("unknown-top".to_string(), JField::Leaf(JLeaf::Raw("[1,2]".to_string()))),
        ],
    }
}

#[test]
fn parses_current_schema() {
    let c = config_from_doc(&current_schema_doc(), HostOs::Windows).unwrap();
    assert_eq!(c.current_profile, Some("main".to_string()));
    assert_eq!(c.profiles.len(), 1);
    assert_eq!(c.profiles[0].name, "main");
    assert_eq!(c.profiles[0].gd_path, "/gd");
    assert_eq!(c.profiles[0].platform, "win");
    assert_eq!(
        c.profiles[0].other,
        vec![("future-field".to_string(), JLeaf::Int(3))]
    );
    assert_eq!(c.default_developer, None);
    assert!(c.sdk_nightly);
    assert_eq!(c.sdk_version, Some("2.0.0".to_string()));
    assert_eq!(c.index_token, None);
    assert_eq!(c.index_url, "https://example.test");
    assert_eq!(c.other.len(), 1);
    assert_eq!(c.other[0].0, "unknown-top");
}

#[test]
fn missing_platform_defaults_to_host_tag() {
    let d = JDoc {
        entries: vec![
            (
                "profiles".to_string(),
                JField::Objs(vec![obj(vec![
                    ("name", JLeaf::Str("m".to_string())),
                    ("gd-path", JLeaf::Str("/gd".to_string())),
                ])]),
            ),
            ("sdk-nightly".to_string(), JField::Leaf(JLeaf::Bool(false))),
        ],
    };
    let c = config_from_doc(&d, HostOs::MacArm).unwrap();
    assert_eq!(c.profiles[0].platform, "mac-arm");
    assert_eq!(c.index_url, "https://api.sapfire-sdk.org");
    assert_eq!(c.current_profile, None);
}

#[test]
fn rejects_documents_outside_the_schema() {
    // No sdk-nightly key.
    let d = JDoc {
        entries: vec![("profiles".to_string(), JField::Objs(Vec::new()))],
    };
    assert!(config_from_doc(&d, HostOs::Windows).is_none());
    // Wrong type for a profile name.
    let d = JDoc {
        entries: vec![
            (
                "profiles".to_string(),
                JField::Objs(vec![obj(vec![
                    ("name", JLeaf::Int(1)),
                    ("gd-path", JLeaf::Str("/gd".to_string())),
                ])]),
            ),
            ("sdk-nightly".to_string(), JField::Leaf(JLeaf::Bool(false))),
        ],
    };
    assert!(config_from_doc(&d, HostOs::Windows).is_none());
}

#[test]
fn round_trip_preserves_recognized_fields_and_unknown_keys() {
    let loaded = config_from_doc(&current_schema_doc(), HostOs::Windows).unwrap();
    let saved = config_to_doc(&loaded);
    let reloaded = config_from_doc(&saved, HostOs::Windows).unwrap();
    assert_eq!(reloaded.current_profile, loaded.current_profile);
    assert_eq!(reloaded.default_developer, loaded.default_developer);
    assert_eq!(reloaded.sdk_nightly, loaded.sdk_nightly);
    assert_eq!(reloaded.sdk_version, loaded.sdk_version);
    assert_eq!(reloaded.index_token, loaded.index_token);
    assert_eq!(reloaded.index_url, loaded.index_url);
    assert_eq!(reloaded.profiles.len(), loaded.profiles.len());
    assert_eq!(reloaded.profiles[0].name, loaded.profiles[0].name);
    assert_eq!(reloaded.profiles[0].gd_path, loaded.profiles[0].gd_path);
    assert_eq!(reloaded.profiles[0].platform, loaded.profiles[0].platform);
    assert_eq!(reloaded.profiles[0].other, loaded.profiles[0].other);
    assert_eq!(reloaded.other, loaded.other);
}

#[test]
fn legacy_document_parses_and_migrates() {
    let d = JDoc {
        entries: vec![
            ("default-installation".to_string(), JField::Leaf(JLeaf::Int(0))),
            (
                "installations".to_string(),
                JField::Objs(vec![obj(vec![
                    ("path", JLeaf::Str("/gd".to_string())),
                    ("executable", JLeaf::Str("Foo.exe".to_string())),
                ])]),
            ),
        ],
    };
    let oc = old_config_from_doc(&d).unwrap();
    assert_eq!(oc.default_installation, 0);
    assert_eq!(oc.working_installation, None);
    let insts = oc.installations.as_ref().unwrap();
    assert_eq!(insts[0].path, "/gd");
    assert_eq!(insts[0].executable, "Foo.exe");

    // The loader falls back to the legacy schema and migrates.
    let l = load_config(true, ConfigFile::Present(d), HostOs::Windows).unwrap();
    assert!(l.needs_save);
    assert_eq!(l.config.profiles.len(), 1);
    assert_eq!(l.config.profiles[0].name, "Foo");
    assert_eq!(l.config.profiles[0].platform, "win");
    assert_eq!(l.config.profiles[0].gd_path, "/gd");
    assert_eq!(l.config.current_profile, Some("Foo".to_string()));
}

#[test]
fn legacy_document_rejects_negative_index() {
    let d = JDoc {
        entries: vec![(
            "default-installation".to_string(),
            JField::Leaf(JLeaf::Int(-1)),
        )],
    };
    assert!(old_config_from_doc(&d).is_none());
}

#[test]
fn loader_state_machine() {
    // Data root absent: fresh document, nothing to persist yet.
    let l = load_config(false, ConfigFile::Absent, HostOs::Windows).unwrap();
    assert!(!l.needs_save);
    assert!(l.config.profiles.is_empty());
    assert_eq!(l.config.current_profile, None);
    assert_eq!(l.config.index_url, "https://api.sapfire-sdk.org");

    // Backing file absent: fresh document, persisted at once.
    let l = load_config(true, ConfigFile::Absent, HostOs::Windows).unwrap();
    assert!(l.needs_save);
    assert!(l.config.profiles.is_empty());

    // Text that is not a JSON object is fatal.
    let r = load_config(true, ConfigFile::Unparsable, HostOs::Windows);
    assert_eq!(r.err(), Some(LoadError::ConfigCorrupt));

    // A document fitting neither schema is fatal.
    let d = JDoc {
        entries: vec![("nonsense".to_string(), JField::Leaf(JLeaf::Bool(true)))],
    };
    let r = load_config(true, ConfigFile::Present(d), HostOs::Windows);
    assert_eq!(r.err(), Some(LoadError::ConfigCorrupt));
}

#[test]
fn loader_rewrites_legacy_mac_tag_and_asks_to_persist() {
    let d = JDoc {
        entries: vec![
            (
                "profiles".to_string(),
                JField::Objs(vec![obj(vec![
                    ("name", JLeaf::Str("m".to_string())),
                    ("gd-path", JLeaf::Str("/gd".to_string())),
                    ("platform", JLeaf::Str("mac".to_string())),
                ])]),
            ),
            ("sdk-nightly".to_string(), JField::Leaf(JLeaf::Bool(false))),
        ],
    };
    let l = load_config(true, ConfigFile::Present(d), HostOs::MacIntel).unwrap();
    assert!(l.needs_save);
    assert_eq!(l.config.profiles[0].platform, "mac-intel");
}

#[test]
fn save_emits_every_field_in_schema_order() {
    let c = Config {
        current_profile: None,
        profiles: vec![Profile {
            name: "p".to_string(),
            gd_path: "/gd".to_string(),
            platform: "win".to_string(),
            other: Vec::new(),
        }],
        default_developer: Some("dev".to_string()),
        sdk_nightly: false,
        sdk_version: None,
        index_token: None,
        index_url: "https://api.sapfire-sdk.org".to_string(),
        other: vec![("extra".to_string(), JField::Leaf(JLeaf::Int(7)))],
    };
    let d = config_to_doc(&c);
    let keys: Vec<&str> = d.entries.iter().map(|(k, _)| k.as_str()).collect();
    assert_eq!(
        keys,
        vec![
            "current-profile",
            "profiles",
            "default-developer",
            "sdk-nightly",
            "sdk-version",
            "index-token",
            "index-url",
            "extra",
        ]
    );
    assert_eq!(d.entries[0].1, JField::Leaf(JLeaf::Null));
    assert_eq!(d.entries[2].1, JField::Leaf(JLeaf::Str("dev".to_string())));
    assert_eq!(d.entries[7].1, JField::Leaf(JLeaf::Int(7)));
}
