use crud_api::model::OrderModel;
use crud_api::mongo::{doc_to_order, parse_order_id};
use crud_api::pg::{customer_id_from, parse_customer_id};
use crud_api::Error;
use mongodb::bson::oid::ObjectId;
use sqlx::types::Uuid;

#[test]
fn order_id_is_read_from_24_digits() {
    assert_eq!(
        parse_order_id("65a1b2c3d4e5f60718293a4b"),
        Ok([0x65, 0xa1, 0xb2, 0xc3, 0xd4, 0xe5, 0xf6, 0x07, 0x18, 0x29, 0x3a, 0x4b])
    );
    assert_eq!(parse_order_id("000000000000000000000000"), Ok([0u8; 12]));
    assert_eq!(parse_order_id("ffffffffffffffffffffffff"), Ok([0xffu8; 12]));
}

#[test]
fn order_id_digits_may_be_upper_case() {
    assert_eq!(
        parse_order_id("65A1B2C3D4E5F60718293A4B"),
        Ok([0x65, 0xa1, 0xb2, 0xc3, 0xd4, 0xe5, 0xf6, 0x07, 0x18, 0x29, 0x3a, 0x4b])
    );
    assert_eq!(
        parse_order_id("65a1B2c3D4e5F60718293a4B"),
        Ok([0x65, 0xa1, 0xb2, 0xc3, 0xd4, 0xe5, 0xf6, 0x07, 0x18, 0x29, 0x3a, 0x4b])
    );
}

#[test]
fn order_id_of_another_length_is_invalid() {
    for text in ["", "6", "65a1b2c3d4e5f60718293a4", "65a1b2c3d4e5f60718293a4b0", "65a1b2c3d4e5f60718293a4b00"] {
        let parsed = parse_order_id(text);
        assert!(matches!(parsed, Err(Error::MongoInvalidIDError { .. })), "{text}");
    }
}

#[test]
fn order_id_with_another_character_is_invalid() {
    for text in [
        "65a1b2c3d4e5f60718293a4g",
        "65a1b2c3d4e5-60718293a4b",
        " 5a1b2c3d4e5f60718293a4b",
        "65a1b2c3d4e5f60718293a\u{e9}",
        "\u{e9}\u{e9}\u{e9}\u{e9}\u{e9}\u{e9}\u{e9}\u{e9}\u{e9}\u{e9}\u{e9}\u{e9}",
    ] {
        let parsed = parse_order_id(text);
        assert!(matches!(parsed, Err(Error::MongoInvalidIDError { .. })), "{text}");
    }
}

#[test]
fn invalid_order_id_carries_the_driver_message() {
    let expected = "nope".parse::<ObjectId>().unwrap_err().to_string();
    assert_eq!(parse_order_id("nope"), Err(Error::MongoInvalidIDError { e: expected }));
}

#[test]
fn order_id_is_written_in_lower_case_digits() {
    let order = OrderModel {
        id: [0x00, 0x0f, 0xf0, 0xff, 0x9a, 0xbc, 0xde, 0x12, 0x34, 0x56, 0x78, 0x90],
        customer_name: "paul".to_string(),
        product_name: "banana".to_string(),
    };
    assert_eq!(doc_to_order(&order).id, "000ff0ff9abcde1234567890");
}

#[test]
fn order_id_is_read_back_as_written() {
    let id = [0xde, 0xad, 0xbe, 0xef, 0x01, 0x23, 0x45, 0x67, 0x89, 0xab, 0xcd, 0xef];
    let order = OrderModel {
        id,
        customer_name: String::new(),
        product_name: String::new(),
    };
    let text = doc_to_order(&order).id;
    assert_eq!(text.len(), 24);
    assert_eq!(parse_order_id(&text), Ok(id));
    assert_eq!(ObjectId::from_bytes(id).to_hex(), text);
}

#[test]
fn customer_id_is_read_in_its_usual_forms() {
    let expected = [
        0x55, 0x0e, 0x84, 0x00, 0xe2, 0x9b, 0x41, 0xd4, 0xa7, 0x16, 0x44, 0x66, 0x55, 0x44, 0x00,
        0x00,
    ];
    assert_eq!(parse_customer_id("550e8400-e29b-41d4-a716-446655440000"), Ok(expected));
    assert_eq!(parse_customer_id("550E8400-E29B-41D4-A716-446655440000"), Ok(expected));
    assert_eq!(parse_customer_id("550e8400e29b41d4a716446655440000"), Ok(expected));
}

#[test]
fn customer_id_that_is_none_is_refused() {
    for text in ["", "paul", "550e8400-e29b-41d4-a716-44665544000", "550e8400-e29b-41d4-a716-44665544000z"] {
        let parsed = parse_customer_id(text);
        assert!(matches!(parsed, Err(Error::SqlxUuid { .. })), "{text}");
    }
}

#[test]
fn refused_customer_id_carries_the_driver_message() {
    let expected = Uuid::parse_str("paul").unwrap_err().to_string();
    assert_eq!(parse_customer_id("paul"), Err(Error::SqlxUuid { e: expected }));
}

#[test]
fn driver_answer_is_handed_on() {
    assert_eq!(customer_id_from(Ok([7u8; 16])), Ok([7u8; 16]));
    assert_eq!(
        customer_id_from(Err("invalid length".to_string())),
        Err(Error::SqlxUuid { e: "invalid length".to_string() })
    );
}

#[test]
fn customer_id_is_written_in_five_groups() {
    let id = [
        0x01, 0x23, 0x45, 0x67, 0x89, 0xab, 0xcd, 0xef, 0xfe, 0xdc, 0xba, 0x98, 0x76, 0x54, 0x32,
        0x10,
    ];
    let row = crud_api::model::CustomerModel {
        customer_id: id,
        customer_name: None,
        customer_surname: None,
    };
    let text = crud_api::pg::customer_found(&row).id;
    assert_eq!(text, "01234567-89ab-cdef-fedc-ba9876543210");
    assert_eq!(text, Uuid::from_bytes(id).to_string());
    assert_eq!(parse_customer_id(&text), Ok(id));
}

#[test]
fn customer_id_of_zeros_and_of_ones() {
    let zeros = crud_api::model::CustomerModel {
        customer_id: [0u8; 16],
        customer_name: None,
        customer_surname: None,
    };
    assert_eq!(
        crud_api::pg::customer_deleted(&zeros).id,
        "00000000-0000-0000-0000-000000000000"
    );
    let ones = crud_api::model::CustomerModel {
        customer_id: [0xffu8; 16],
        customer_name: None,
        customer_surname: None,
    };
    assert_eq!(
        crud_api::pg::customer_written(&ones).id,
        "ffffffff-ffff-ffff-ffff-ffffffffffff"
    );
}
