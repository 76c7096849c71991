use cake_wallet::descriptor::{
    WalletConnectionDescriptor, DESCRIPTOR_VERSION, RESTORE_HEIGHT, SOURCE,
};
use cake_wallet::encoded::{generate_wallet_result, UREncodeResult};
use cake_wallet::error::ConnectError;

#[test]
fn fixed_metadata_has_its_values() {
    assert_eq!(DESCRIPTOR_VERSION, 0);
    assert_eq!(RESTORE_HEIGHT, 0);
    assert_eq!(SOURCE, "Keystone");
}

#[test]
fn new_descriptor_carries_fields_and_metadata() {
    let record = WalletConnectionDescriptor::new("addr".to_string(), "0a0b".to_string(), true);
    assert_eq!(record.version(), 0);
    assert_eq!(record.primary_address(), "addr");
    assert_eq!(record.private_view_key(), "0a0b");
    assert_eq!(record.restore_height(), 0);
    assert!(record.encrypted());
    assert_eq!(record.source(), "Keystone");
}

#[test]
fn descriptors_differ_by_their_flag() {
    let sealed = WalletConnectionDescriptor::new("addr".to_string(), "0a0b".to_string(), true);
    let clear = WalletConnectionDescriptor::new("addr".to_string(), "0a0b".to_string(), false);
    assert!(!clear.encrypted());
    assert_ne!(sealed, clear);
    assert_ne!(sealed.to_json(), clear.to_json());
}

#[test]
fn json_text_is_compact_with_members_by_name() {
    let record = WalletConnectionDescriptor::new("addr".to_string(), "0a0b".to_string(), false);
    assert_eq!(
        record.to_json(),
        "{\"encrypted\":false,\"primaryAddress\":\"addr\",\"privateViewKey\":\"0a0b\",\"restoreHeight\":0,\"source\":\"Keystone\",\"version\":0}"
    );
}

#[test]
fn json_text_reads_back_as_the_descriptor() {
    let record = WalletConnectionDescriptor::new("4Abc".to_string(), "ff00".to_string(), true);
    let value: serde_json::Value = serde_json::from_str(&record.to_json()).unwrap();
    let object = value.as_object().unwrap();
    assert_eq!(object.len(), 6);
    assert_eq!(value["version"].as_u64(), Some(0));
    assert_eq!(value["primaryAddress"].as_str(), Some("4Abc"));
    assert_eq!(value["privateViewKey"].as_str(), Some("ff00"));
    assert_eq!(value["restoreHeight"].as_u64(), Some(0));
    assert_eq!(value["encrypted"].as_bool(), Some(true));
    assert_eq!(value["source"].as_str(), Some("Keystone"));
}

#[test]
fn json_text_escapes_what_a_field_holds() {
    let odd = "a \"quoted\" \\ line\nbreak é";
    let record = WalletConnectionDescriptor::new(odd.to_string(), String::new(), false);
    let value: serde_json::Value = serde_json::from_str(&record.to_json()).unwrap();
    assert_eq!(value["primaryAddress"].as_str(), Some(odd));
    assert_eq!(value["privateViewKey"].as_str(), Some(""));
}

#[test]
fn json_text_of_a_sealed_descriptor_is_exact() {
    let record = WalletConnectionDescriptor::new("00ff".to_string(), "a1".to_string(), true);
    assert_eq!(
        record.to_json(),
        "{\"encrypted\":true,\"primaryAddress\":\"00ff\",\"privateViewKey\":\"a1\",\"restoreHeight\":0,\"source\":\"Keystone\",\"version\":0}"
    );
}

#[test]
fn wallet_result_is_the_text_of_the_descriptor() {
    let result = generate_wallet_result("addr".to_string(), "0a0b".to_string(), true);
    let expected = WalletConnectionDescriptor::new("addr".to_string(), "0a0b".to_string(), true);
    assert_eq!(result, UREncodeResult::Text(expected.to_json()));
}

#[test]
fn text_result_wraps_its_payload() {
    assert_eq!(UREncodeResult::text("payload".to_string()), UREncodeResult::Text("payload".to_string()));
}

#[test]
fn error_becomes_a_result_that_reports_it() {
    assert_eq!(
        UREncodeResult::from(ConnectError::InvalidPin),
        UREncodeResult::Error(ConnectError::InvalidPin)
    );
    assert_eq!(
        UREncodeResult::from(ConnectError::InvalidLength),
        UREncodeResult::Error(ConnectError::InvalidLength)
    );
}
