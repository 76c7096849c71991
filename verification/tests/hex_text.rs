use cake_wallet::error::ConnectError;
use cake_wallet::hex_text::decode_hex;
use cake_wallet::keys::{is_encoded_key, parse_private_view_key};

const VIEW_KEY: &str = "5e3f8a1d0c4b7a69f2e1d0c3b4a59687f8e9dacbbcad9e8f7061524334251607";

#[test]
fn lower_case_text_is_decoded() {
    assert_eq!(decode_hex("48656c6c6f20776f726c6421"), Ok(b"Hello world!".to_vec()));
}

#[test]
fn upper_and_mixed_case_are_decoded_alike() {
    assert_eq!(decode_hex("f9b4ca"), Ok(vec![0xf9, 0xb4, 0xca]));
    assert_eq!(decode_hex("F9B4CA"), Ok(vec![0xf9, 0xb4, 0xca]));
    assert_eq!(decode_hex("f9B4Ca"), Ok(vec![0xf9, 0xb4, 0xca]));
}

#[test]
fn high_half_comes_first() {
    assert_eq!(decode_hex("0102030f10"), Ok(vec![1, 2, 3, 15, 16]));
}

#[test]
fn empty_text_is_no_bytes() {
    assert_eq!(decode_hex(""), Ok(Vec::new()));
}

#[test]
fn odd_number_of_digits_is_refused() {
    assert_eq!(decode_hex("123"), Err(ConnectError::InvalidEncoding));
}

#[test]
fn character_that_is_no_digit_is_refused() {
    assert_eq!(decode_hex("0g"), Err(ConnectError::InvalidEncoding));
    assert_eq!(decode_hex("foo!"), Err(ConnectError::InvalidEncoding));
    assert_eq!(decode_hex(" 12 "), Err(ConnectError::InvalidEncoding));
    assert_eq!(decode_hex("0x12"), Err(ConnectError::InvalidEncoding));
}

#[test]
fn character_beyond_ascii_is_refused() {
    assert_eq!(decode_hex("é"), Err(ConnectError::InvalidEncoding));
    assert_eq!(decode_hex("１２"), Err(ConnectError::InvalidEncoding));
    assert_eq!(decode_hex("12é4"), Err(ConnectError::InvalidEncoding));
}

#[test]
fn view_key_of_thirty_two_bytes_is_parsed() {
    let key = parse_private_view_key(VIEW_KEY).unwrap();
    assert_eq!(key[0], 0x5e);
    assert_eq!(key[1], 0x3f);
    assert_eq!(key[31], 0x07);
    assert_eq!(key.to_vec(), hex::decode(VIEW_KEY).unwrap());
}

#[test]
fn view_key_in_upper_case_is_the_same_key() {
    let upper = VIEW_KEY.to_uppercase();
    assert_eq!(parse_private_view_key(&upper), parse_private_view_key(VIEW_KEY));
}

#[test]
fn view_key_one_byte_short_is_refused_for_its_width() {
    assert_eq!(parse_private_view_key(&VIEW_KEY[2..]), Err(ConnectError::InvalidLength));
}

#[test]
fn view_key_one_byte_long_is_refused_for_its_width() {
    let long = format!("{}00", VIEW_KEY);
    assert_eq!(parse_private_view_key(&long), Err(ConnectError::InvalidLength));
}

#[test]
fn empty_view_key_is_refused_for_its_width() {
    assert_eq!(parse_private_view_key(""), Err(ConnectError::InvalidLength));
}

#[test]
fn view_key_that_is_not_hexadecimal_is_refused_for_its_encoding() {
    let broken = format!("zz{}", &VIEW_KEY[2..]);
    assert_eq!(parse_private_view_key(&broken), Err(ConnectError::InvalidEncoding));
}

#[test]
fn view_key_with_an_odd_number_of_digits_is_refused_for_its_encoding() {
    assert_eq!(parse_private_view_key(&VIEW_KEY[1..]), Err(ConnectError::InvalidEncoding));
}

#[test]
fn encoding_of_a_spend_key_is_recognised() {
    assert!(is_encoded_key("7d996b0f2db6dbb5f2a086211f2399a4a7479b2c911af307fdc3f7f61a88cb0e"));
    assert!(is_encoded_key("7D996B0F"));
    assert!(is_encoded_key(""));
    assert!(!is_encoded_key("7d996b0"));
    assert!(!is_encoded_key("not a key"));
}
