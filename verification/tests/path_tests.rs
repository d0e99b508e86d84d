use persist::pathname::{is_toml_file, join_path, resolve_dir, DirPolicy};
use persist::record::Record;
use persist::settings::Settings;
use persist::singleton::SingletonPersist;
use persist::store::Persist;

#[test]
fn record_path_under_direct_policy() {
    let rec = Record { id: "alpha".to_string(), value: 7 };
    let p = rec.path(&DirPolicy::Direct);
    assert_eq!(p, "records/alpha.toml");
}

#[test]
fn record_path_under_data_root_policy() {
    let rec = Record { id: "alpha".to_string(), value: 7 };
    let p = rec.path(&DirPolicy::DataRoot { home: "/home/someone".to_string() });
    assert_eq!(p, "/home/someone/.local/share/records/alpha.toml");
}

#[test]
fn path_is_deterministic() {
    let rec = Record { id: "alpha".to_string(), value: 7 };
    let policy = DirPolicy::DataRoot { home: "/home/someone".to_string() };
    let first = rec.path(&policy);
    let second = rec.path(&policy);
    assert_eq!(first, second);
}

#[test]
fn singleton_path_is_one_per_type() {
    let p = <Settings as SingletonPersist>::path(&DirPolicy::Direct);
    assert_eq!(p, "config/settings.toml");
    let q = <Settings as SingletonPersist>::path(&DirPolicy::Direct);
    assert_eq!(p, q);
}

#[test]
fn join_rule_is_directory_slash_identity_dot_toml() {
    assert_eq!(join_path("some/dir", "name"), "some/dir/name.toml");
}

#[test]
fn resolve_dir_policies() {
    let under_root = resolve_dir(
        &DirPolicy::DataRoot { home: "/root".to_string() },
        "notes",
    );
    assert_eq!(under_root, "/root/.local/share/notes");
    let direct = resolve_dir(&DirPolicy::Direct, "/var/data/notes");
    assert_eq!(direct, "/var/data/notes");
}

#[test]
fn toml_extension_is_exact_and_case_sensitive() {
    assert!(is_toml_file("a.toml"));
    assert!(is_toml_file("archive.tar.toml"));
    assert!(is_toml_file("b..toml"));
    assert!(!is_toml_file(".toml"));
    assert!(!is_toml_file("a.TOML"));
    assert!(!is_toml_file("a.txt"));
    assert!(!is_toml_file("toml"));
    assert!(!is_toml_file("a.toml.bak"));
    assert!(!is_toml_file(""));
}

#[test]
fn unsafe_identities_are_rejected() {
    assert!(Record::new("alpha".to_string(), 1).is_some());
    assert!(Record::new("with_under_score9".to_string(), 1).is_some());
    assert!(Record::new("".to_string(), 1).is_none());
    assert!(Record::new("a/b".to_string(), 1).is_none());
    assert!(Record::new("a\\b".to_string(), 1).is_none());
    assert!(Record::new("a.b".to_string(), 1).is_none());
    assert!(Record::new("a:b".to_string(), 1).is_none());
    assert!(Record::new("..".to_string(), 1).is_none());
}
