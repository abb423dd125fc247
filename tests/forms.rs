use pigskit::form::{convert_part, decode_form, FieldKind, FieldSpec, FieldValue, Part, DEFAULT_FORM_LIMIT};
use pigskit::handler::{avatar_schema, product_create_schema, product_patch_schema};

const ID_TEXT: &str = "936da01f-9abd-4d9d-80c7-02af85c822a8";
const ID: u128 = 0x936da01f_9abd_4d9d_80c7_02af85c822a8;

fn part(name: &str, data: &[u8]) -> Part {
    Part { name: name.to_string(), data: data.to_vec() }
}

#[test]
fn decodes_fields_in_schema_order() {
    let parts = vec![part("image", &[1, 2, 3]), part("extra", b"ignored"), part("payload", b"{\"n\":1}"), part("shop_id", ID_TEXT.as_bytes())];
    let vals = decode_form(&product_create_schema(), parts, DEFAULT_FORM_LIMIT).unwrap();
    assert_eq!(vals.len(), 3);
    assert!(matches!(vals[0], FieldValue::Identifier(id) if id == ID));
    assert!(matches!(&vals[1], FieldValue::Text(s) if s == "{\"n\":1}"));
    assert!(matches!(&vals[2], FieldValue::Binary(b) if b == &vec![1u8, 2, 3]));
}

#[test]
fn optional_field_without_part_is_absent() {
    let parts = vec![part("shop_id", ID_TEXT.as_bytes()), part("payload", b"p")];
    let vals = decode_form(&product_create_schema(), parts, DEFAULT_FORM_LIMIT).unwrap();
    assert!(matches!(vals[2], FieldValue::Absent));
}

#[test]
fn missing_required_field_is_named() {
    let parts = vec![part("shop_id", ID_TEXT.as_bytes()), part("image", b"x")];
    let e = decode_form(&product_create_schema(), parts, DEFAULT_FORM_LIMIT).unwrap_err();
    assert_eq!((e.status(), e.kind()), (400, "FormMissingPart"));
    assert_eq!(e.message(), "Missing or invalid part \"payload\" in form.");

    let e = decode_form(&avatar_schema(), vec![], DEFAULT_FORM_LIMIT).unwrap_err();
    assert_eq!(e.message(), "Missing or invalid part \"image\" in form.");
}

#[test]
fn unconvertible_required_part_counts_as_missing() {
    let parts = vec![part("shop_id", b"not-a-uuid"), part("payload", b"p")];
    let e = decode_form(&product_create_schema(), parts, DEFAULT_FORM_LIMIT).unwrap_err();
    assert_eq!(e.message(), "Missing or invalid part \"shop_id\" in form.");
    let parts = vec![part("shop_id", ID_TEXT.as_bytes()), part("payload", &[0xff, 0xfe])];
    let e = decode_form(&product_create_schema(), parts, DEFAULT_FORM_LIMIT).unwrap_err();
    assert_eq!(e.message(), "Missing or invalid part \"payload\" in form.");
}

#[test]
fn later_part_wins_and_bad_later_part_keeps_earlier() {
    let schema = vec![FieldSpec { name: "t".to_string(), kind: FieldKind::Text, required: true }];
    let vals = decode_form(&schema, vec![part("t", b"one"), part("t", b"two")], 100).unwrap();
    assert!(matches!(&vals[0], FieldValue::Text(s) if s == "two"));
    let vals = decode_form(&schema, vec![part("t", b"one"), part("t", &[0xc0])], 100).unwrap();
    assert!(matches!(&vals[0], FieldValue::Text(s) if s == "one"));
}

#[test]
fn oversized_upload_is_payload_too_large() {
    let big = vec![0u8; 11];
    for parts in [vec![part("image", &big)], vec![part("shop_id", b"bad"), part("image", &big)]] {
        let e = decode_form(&avatar_schema(), parts, 10).unwrap_err();
        assert_eq!(e.kind(), "PayloadTooLarge");
        assert_eq!(e.status(), 400);
    }
    let vals = decode_form(&avatar_schema(), vec![part("image", &[0u8; 10])], 10).unwrap();
    assert!(matches!(&vals[0], FieldValue::Binary(b) if b.len() == 10));
}

#[test]
fn part_conversion_by_kind() {
    assert!(matches!(convert_part(FieldKind::Identifier, ID_TEXT.as_bytes().to_vec()), FieldValue::Identifier(id) if id == ID));
    assert!(matches!(convert_part(FieldKind::Text, "héllo".as_bytes().to_vec()), FieldValue::Text(s) if s == "héllo"));
    assert!(matches!(convert_part(FieldKind::Text, vec![0xed, 0xa0, 0x80]), FieldValue::Absent));
    assert!(matches!(convert_part(FieldKind::Binary, vec![0xff]), FieldValue::Binary(b) if b == vec![0xff]));
}

#[test]
fn product_patch_schema_fields() {
    let s = product_patch_schema();
    let names: Vec<&str> = s.iter().map(|f| f.name.as_str()).collect();
    assert_eq!(names, vec!["shop_id", "product_key", "payload", "delete_image", "image"]);
    assert!(s[0].required && s[1].required && !s[2].required);
}
