use libcryptsetup_rs::err::LibcryptErr;
use libcryptsetup_rs::luks2_token::{json_get, json_result, json_set, json_text_to_cstring};
use libcryptsetup_rs::marshal::{to_cstring, NativeText};
use libcryptsetup_rs::status::{uuid_from_ptr, uuid_result};

#[test]
fn test_uuid_from_ptr() {
    let text = "936da01f-9abd-4d9d-80c7-02af85c822a8";
    let ptr = Some(to_cstring(text).unwrap());
    let uuid = uuid_from_ptr(&ptr).unwrap();
    assert_eq!(
        uuid.as_bytes(),
        &[
            0x93, 0x6d, 0xa0, 0x1f, 0x9a, 0xbd, 0x4d, 0x9d, 0x80, 0xc7, 0x02, 0xaf, 0x85, 0xc8,
            0x22, 0xa8
        ]
    );
    assert_eq!(uuid, uuid::Uuid::parse_str(text).unwrap());
    let simple = Some(to_cstring("936da01f9abd4d9d80c702af85c822a8").unwrap());
    assert_eq!(uuid_from_ptr(&simple).unwrap(), uuid);
}

#[test]
fn test_uuid_errors() {
    assert!(matches!(uuid_from_ptr(&None), Err(LibcryptErr::NullPtr)));
    let not_text = Some(NativeText::from_ptr(&[0xff, 0xff]));
    assert!(matches!(uuid_from_ptr(&not_text), Err(LibcryptErr::Utf8Error(_))));
    let not_uuid = Some(to_cstring("not-a-uuid").unwrap());
    assert!(matches!(uuid_from_ptr(&not_uuid), Err(LibcryptErr::UuidError(_))));
    let parsed = uuid::Uuid::parse_str("zz");
    assert!(matches!(uuid_result(parsed), Err(LibcryptErr::UuidError(_))));
    let nil = uuid::Uuid::nil();
    assert_eq!(uuid_result(Ok(nil)).unwrap(), nil);
}

#[test]
fn test_json_get() {
    let ptr = Some(to_cstring("{\"type\":\"luks2-keyring\",\"keyslots\":[\"0\",\"1\"]}").unwrap());
    let value = json_get(&ptr).unwrap();
    assert_eq!(value["type"].as_str(), Some("luks2-keyring"));
    assert_eq!(value["keyslots"].as_array().unwrap().len(), 2);
    assert_eq!(value["keyslots"][1].as_str(), Some("1"));
}

#[test]
fn test_json_get_errors() {
    assert!(matches!(json_get(&None), Err(LibcryptErr::NullPtr)));
    let not_text = Some(NativeText::from_ptr(&[0xc0, 0x80]));
    assert!(matches!(json_get(&not_text), Err(LibcryptErr::Utf8Error(_))));
    let not_json = Some(to_cstring("{\"type\":").unwrap());
    assert!(matches!(json_get(&not_json), Err(LibcryptErr::JsonError(_))));
    let parsed = serde_json::from_str::<serde_json::Value>("]");
    assert!(matches!(json_result(parsed), Err(LibcryptErr::JsonError(_))));
}

#[test]
fn test_json_set() {
    let mut map = serde_json::Map::new();
    map.insert("type".to_string(), serde_json::Value::String("keyring".to_string()));
    map.insert("keyslots".to_string(), serde_json::Value::Array(vec![]));
    let value = serde_json::Value::Object(map);
    let native = json_set(&value).unwrap();
    assert_eq!(native.as_bytes_with_nul(), b"{\"keyslots\":[],\"type\":\"keyring\"}\0");
    let back = json_get(&Some(native)).unwrap();
    assert_eq!(back, value);
}

#[test]
fn test_json_text_to_cstring() {
    assert_eq!(
        json_text_to_cstring(Ok("[1,2]".to_string())).unwrap().as_bytes_with_nul(),
        b"[1,2]\0"
    );
    assert!(matches!(
        json_text_to_cstring(Ok("[1\0]".to_string())),
        Err(LibcryptErr::NullError(2))
    ));
    let failed = serde_json::from_str::<serde_json::Value>("").map(|_| String::new());
    assert!(matches!(json_text_to_cstring(failed), Err(LibcryptErr::JsonError(_))));
}
