use persist::record::Record;
use persist::store::{decode_entries, select_toml_files, Persist};

#[test]
fn record_round_trip() {
    let rec = Record { id: "alpha".to_string(), value: 7 };
    let doc = rec.to_toml();
    let back = <Record as Persist>::from_toml(doc.as_str()).expect("the document must decode");
    assert_eq!(back.id, "alpha");
    assert_eq!(back.value, 7);
}

#[test]
fn record_round_trip_extreme_values() {
    for value in [i64::MIN, -1, 0, 1, i64::MAX] {
        let rec = Record { id: "edge".to_string(), value };
        let back = <Record as Persist>::from_toml(rec.to_toml().as_str()).unwrap();
        assert_eq!(back.id, "edge");
        assert_eq!(back.value, value);
    }
}

#[test]
fn serialized_record_is_a_table_with_the_fields() {
    let rec = Record { id: "alpha".to_string(), value: 7 };
    let doc = rec.to_toml();
    assert!(doc.contains("value = 7"));
    assert!(doc.contains("id = \"alpha\""));
    assert_ne!(doc, "alpha");
}

#[test]
fn load_all_keeps_well_formed_and_drops_malformed() {
    let good_a = Record { id: "a".to_string(), value: 1 }.to_toml();
    let broken = "value = ".to_string();
    let good_b = Record { id: "b".to_string(), value: 2 }.to_toml();
    let garbage = "!!! not toml at all".to_string();
    let contents = vec![good_a, broken, good_b, garbage];
    let loaded: Vec<Record> = decode_entries(&contents);
    assert_eq!(loaded.len(), 2);
    assert_eq!(loaded[0].id, "a");
    assert_eq!(loaded[0].value, 1);
    assert_eq!(loaded[1].id, "b");
    assert_eq!(loaded[1].value, 2);
}

#[test]
fn load_all_of_nothing_is_empty() {
    let contents: Vec<String> = Vec::new();
    let loaded: Vec<Record> = decode_entries(&contents);
    assert!(loaded.is_empty());
}

#[test]
fn listing_filter_keeps_only_toml_names() {
    let names = vec![
        "a.toml".to_string(),
        "b.txt".to_string(),
        "c.json".to_string(),
        "d.toml".to_string(),
        "plain".to_string(),
    ];
    let kept = select_toml_files(&names);
    assert_eq!(kept, vec!["a.toml".to_string(), "d.toml".to_string()]);
}

#[test]
fn listing_of_only_foreign_extensions_contributes_nothing() {
    let names = vec!["a.txt".to_string(), "b.json".to_string(), "c.ini".to_string()];
    let kept = select_toml_files(&names);
    assert!(kept.is_empty());
}

#[test]
fn document_with_missing_or_mistyped_entries_is_rejected() {
    assert!(<Record as Persist>::from_toml("id = \"a\"\n").is_none());
    assert!(<Record as Persist>::from_toml("value = 7\n").is_none());
    assert!(<Record as Persist>::from_toml("id = 3\nvalue = 7\n").is_none());
    assert!(<Record as Persist>::from_toml("id = \"a\"\nvalue = \"7\"\n").is_none());
}

#[test]
fn document_with_unsafe_identity_is_rejected() {
    assert!(<Record as Persist>::from_toml("id = \"a/b\"\nvalue = 7\n").is_none());
    assert!(<Record as Persist>::from_toml("id = \"\"\nvalue = 7\n").is_none());
}

#[test]
fn colliding_identities_share_a_path_and_the_later_document_wins() {
    let first = Record { id: "x".to_string(), value: 1 };
    let second = Record { id: "x".to_string(), value: 2 };
    let policy = persist::pathname::DirPolicy::Direct;
    assert_eq!(first.path(&policy), second.path(&policy));
    // Whole-file replace: the file then holds the second document alone.
    let on_disk = second.to_toml();
    let seen = <Record as Persist>::from_toml(on_disk.as_str()).unwrap();
    assert_eq!(seen.value, 2);
}
