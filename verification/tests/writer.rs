use hsmattest::writer::Writer;
use hsmattest::KeyMode;

fn json_of(records: &[(&str, &str, KeyMode)]) -> String {
    let mut writer = Writer::new_with_capacity(records.len());
    for (key, value, mode) in records {
        writer.push(key.to_string(), value.to_string(), *mode);
    }
    String::from_utf8(writer.to_json_bytes()).unwrap()
}

#[test]
fn empty_writer_gives_one_empty_primary_section() {
    assert_eq!(json_of(&[]), r#"[{"mode": "Primary", "pairs": {}}]"#);
    assert_eq!(
        String::from_utf8(Writer::new().to_json_bytes()).unwrap(),
        r#"[{"mode": "Primary", "pairs": {}}]"#
    );
}

#[test]
fn pairs_of_one_section_keep_their_order() {
    assert_eq!(
        json_of(&[("a", "1", KeyMode::Primary)]),
        r#"[{"mode": "Primary", "pairs": {"a":"1"}}]"#
    );
    assert_eq!(
        json_of(&[
            ("b", "2", KeyMode::Primary),
            ("a", "1", KeyMode::Primary),
            ("c", "3", KeyMode::Primary)
        ]),
        r#"[{"mode": "Primary", "pairs": {"b":"2","a":"1","c":"3"}}]"#
    );
}

#[test]
fn a_new_section_starts_where_the_mode_changes() {
    assert_eq!(
        json_of(&[
            ("a", "1", KeyMode::Primary),
            ("b", "2", KeyMode::Primary),
            ("c", "3", KeyMode::Secondary),
            ("d", "4", KeyMode::Secondary)
        ]),
        r#"[{"mode": "Primary", "pairs": {"a":"1","b":"2"}}, {"mode": "Secondary", "pairs": {"c":"3","d":"4"}}]"#
    );
}

#[test]
fn a_mode_change_at_the_last_record_leaves_no_trailing_comma() {
    assert_eq!(
        json_of(&[("a", "1", KeyMode::Primary), ("c", "3", KeyMode::Secondary)]),
        r#"[{"mode": "Primary", "pairs": {"a":"1"}}, {"mode": "Secondary", "pairs": {"c":"3"}}]"#
    );
}

#[test]
fn a_first_record_of_the_secondary_list_follows_an_empty_primary_section() {
    assert_eq!(
        json_of(&[("c", "3", KeyMode::Secondary)]),
        r#"[{"mode": "Primary", "pairs": {}}, {"mode": "Secondary", "pairs": {"c":"3"}}]"#
    );
}

#[test]
fn sections_alternate_with_the_mode() {
    assert_eq!(
        json_of(&[
            ("a", "1", KeyMode::Secondary),
            ("b", "2", KeyMode::Primary),
            ("c", "3", KeyMode::Secondary)
        ]),
        r#"[{"mode": "Primary", "pairs": {}}, {"mode": "Secondary", "pairs": {"a":"1"}}, {"mode": "Primary", "pairs": {"b":"2"}}, {"mode": "Secondary", "pairs": {"c":"3"}}]"#
    );
}

#[test]
fn take_returns_the_records_in_order() {
    let mut writer = Writer::new();
    writer.push("k1".to_string(), "v1".to_string(), KeyMode::Primary);
    writer.push("k2".to_string(), "v2".to_string(), KeyMode::Secondary);
    assert_eq!(
        writer.take(),
        vec![
            (KeyMode::Primary, "k1".to_string(), "v1".to_string()),
            (KeyMode::Secondary, "k2".to_string(), "v2".to_string())
        ]
    );
    assert!(Writer::new().take().is_empty());
}

#[test]
fn keys_and_values_stand_unescaped_as_utf8() {
    assert_eq!(
        json_of(&[("clé", "värde", KeyMode::Primary)]),
        "[{\"mode\": \"Primary\", \"pairs\": {\"clé\":\"värde\"}}]"
    );
}
