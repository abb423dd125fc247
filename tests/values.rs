use pigskit::config::{args_port, pg_config, server_port, PG_CONFIG_DEV};
use pigskit::handler::{authorize, avatar_fallback, image_action, product_image_schema, profile_patch_schema, ImageAction};
use pigskit::sql::{IntNN, UuidNN};
use pigskit::storage::{default_avatar, file_in, product_dir, user_dir};

#[test]
fn int_values_parse_as_i32() {
    assert_eq!(IntNN::parse("123"), Some(IntNN(123)));
    assert_eq!(IntNN::parse("-2147483648"), Some(IntNN(i32::MIN)));
    assert_eq!(IntNN::parse("+7"), Some(IntNN(7)));
    assert_eq!(IntNN::parse("2147483648"), None);
    assert_eq!(IntNN::parse(" 1"), None);
    assert_eq!(IntNN::parse(""), None);
    assert_eq!("42".parse::<IntNN>().unwrap(), IntNN(42));
    assert_eq!("x".parse::<IntNN>().unwrap_err().kind(), "InvalidData");
}

#[test]
fn uuid_values_round_trip_through_text() {
    let id = UuidNN::parse("a1a2a3a4-b1b2-c1c2-d1d2-d3d4d5d6d7d8").unwrap();
    assert_eq!(id, UuidNN(0xa1a2a3a4b1b2c1c2d1d2d3d4d5d6d7d8));
    assert_eq!(id.to_text(), "a1a2a3a4-b1b2-c1c2-d1d2-d3d4d5d6d7d8");
    assert!(UuidNN::parse("a1a2").unwrap_err().is_inner());
    assert_eq!("a1a2a3a4-b1b2-c1c2-d1d2-d3d4d5d6d7d8".parse::<UuidNN>().unwrap(), id);
}

#[test]
fn port_selection() {
    assert_eq!(args_port(Some("8080")), Some(8080));
    assert_eq!(args_port(Some("70000")), None);
    assert_eq!(args_port(Some("-1")), None);
    assert_eq!(args_port(None), None);
    assert_eq!(server_port(false, None), 80);
    assert_eq!(server_port(true, None), 8001);
    assert_eq!(server_port(true, Some("9000")), 9000);
    assert_eq!(server_port(false, Some("bad")), 80);
    assert_eq!(pg_config(true), PG_CONFIG_DEV);
}

#[test]
fn storage_paths() {
    let shop = 1u128;
    let product = 0xffu128;
    assert_eq!(
        product_dir("/srv", shop, product),
        "/srv/shop/00000000-0000-0000-0000-000000000001/product/00000000-0000-0000-0000-0000000000ff"
    );
    let dir = user_dir("/srv", 2);
    assert_eq!(dir, "/srv/user/00000000-0000-0000-0000-000000000002");
    assert_eq!(file_in(&dir, "avatar.jpg"), "/srv/user/00000000-0000-0000-0000-000000000002/avatar.jpg");
    assert_eq!(default_avatar("/srv"), "/srv/default/user/avatar.jpg");
}

#[test]
fn product_decisions() {
    assert!(authorize(true).is_ok());
    assert_eq!(authorize(false).unwrap_err().kind(), "Unauthorized");
    assert!(matches!(image_action(Some("true"), Some(vec![1])), ImageAction::Delete));
    assert!(matches!(image_action(Some("false"), Some(vec![1])), ImageAction::Store(b) if b == vec![1]));
    assert!(matches!(image_action(None, None), ImageAction::Keep));
}

#[test]
fn avatar_fallback_and_schemas() {
    assert!(avatar_fallback(true).is_ok());
    let e = avatar_fallback(false).unwrap_err();
    assert_eq!(e.message(), "Data \"avatar\" not found.");
    assert_eq!(product_image_schema().len(), 3);
    assert_eq!(profile_patch_schema()[2].name, "delete_avatar");
}
