use tx_assembly::squads::SquadsMetadata;

// The record serializes its fields in declared order, so the reference is
// built field by field, each value escaped by serde itself.
fn serde_reference(name: &str, description: &str, image: &str) -> Vec<u8> {
    let ser = |s: &str| serde_json::to_string(&serde_json::Value::String(s.to_string())).unwrap();
    format!(
        "{{\"name\":{},\"description\":{},\"image\":{}}}",
        ser(name),
        ser(description),
        ser(image)
    )
    .into_bytes()
}

#[test]
fn metadata_json_matches_serde_on_plain_text() {
    let m = SquadsMetadata {
        name: "Team".to_string(),
        description: "A team treasury".to_string(),
        image: "".to_string(),
    };
    assert_eq!(m.to_json(), serde_reference("Team", "A team treasury", ""));
}

#[test]
fn metadata_json_matches_serde_on_escapes() {
    let name = "a\"b\\c";
    let description = "line\nbreak\ttab\rret\x08back\x0cfeed\x01ctl\x1fctl";
    let image = "https://example.invalid/x.png";
    let m = SquadsMetadata {
        name: name.to_string(),
        description: description.to_string(),
        image: image.to_string(),
    };
    assert_eq!(m.to_json(), serde_reference(name, description, image));
}

#[test]
fn metadata_json_matches_serde_on_multibyte_text() {
    let name = "Näme ünïcode";
    let description = "説明テキスト";
    let m = SquadsMetadata {
        name: name.to_string(),
        description: description.to_string(),
        image: "".to_string(),
    };
    assert_eq!(m.to_json(), serde_reference(name, description, ""));
}

#[test]
fn metadata_json_exact_bytes() {
    let m = SquadsMetadata {
        name: "a".to_string(),
        description: "b\"c".to_string(),
        image: "".to_string(),
    };
    assert_eq!(
        String::from_utf8(m.to_json()).unwrap(),
        "{\"name\":\"a\",\"description\":\"b\\\"c\",\"image\":\"\"}"
    );
}
