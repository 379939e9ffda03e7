use spark_frost::identifier::{hex_string_to_identifier, identifier_to_hex, user_identifier};
use spark_frost::wire::{role_from_code, Error, Role};

fn id_hex(n: u8) -> String {
    let mut s = "0".repeat(62);
    s.push_str(&format!("{:02x}", n));
    s
}

#[test]
fn identifier_parses_from_64_hex_digits() {
    let id = hex_string_to_identifier(&id_hex(1)).unwrap();
    let mut expected = vec![0u8; 32];
    expected[31] = 1;
    assert_eq!(id, expected);
}

#[test]
fn identifier_accepts_uppercase_digits() {
    let lower = hex_string_to_identifier(&format!("{}ab", "0".repeat(62))).unwrap();
    let upper = hex_string_to_identifier(&format!("{}AB", "0".repeat(62))).unwrap();
    assert_eq!(lower, upper);
    assert_eq!(lower[31], 0xab);
}

#[test]
fn identifier_refuses_malformed_text() {
    assert_eq!(hex_string_to_identifier(&"0".repeat(63)), Err(Error::InvalidIdentifier));
    assert_eq!(hex_string_to_identifier(&"0".repeat(62)), Err(Error::InvalidIdentifier));
    assert_eq!(hex_string_to_identifier(&format!("{}zz", "0".repeat(62))), Err(Error::InvalidIdentifier));
    assert_eq!(hex_string_to_identifier(""), Err(Error::InvalidIdentifier));
}

#[test]
fn identifier_refuses_zero_and_out_of_range_scalars() {
    assert_eq!(hex_string_to_identifier(&"0".repeat(64)), Err(Error::InvalidIdentifier));
    assert_eq!(hex_string_to_identifier(&"f".repeat(64)), Err(Error::InvalidIdentifier));
}

#[test]
fn identifier_hex_round_trip() {
    let bytes: Vec<u8> = (1..=32).collect();
    let text = identifier_to_hex(&bytes);
    assert_eq!(text, "0102030405060708090a0b0c0d0e0f101112131415161718191a1b1c1d1e1f20");
    assert_eq!(hex_string_to_identifier(&text).unwrap(), bytes);
}

#[test]
fn user_identifier_is_the_hash_of_its_tag() {
    let user = user_identifier().unwrap();
    let expected = frost_secp256k1_tr::Identifier::derive(b"user").unwrap().serialize();
    assert_eq!(user, expected);
    assert_eq!(user.len(), 32);
    assert_ne!(user, b"user".to_vec());
    assert_eq!(hex_string_to_identifier(&identifier_to_hex(&user)).unwrap(), user);
}

#[test]
fn role_codes() {
    assert_eq!(role_from_code(0), Some(Role::Operator));
    assert_eq!(role_from_code(1), Some(Role::User));
    assert_eq!(role_from_code(2), None);
    assert_eq!(role_from_code(-1), None);
}
