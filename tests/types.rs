use std::sync::Arc;

use cashu_client::error::ClientError;
use cashu_client::keyset::{Id, KeySet, KeySetResponse, Keys};
use cashu_client::secret::Secret;

#[test]
fn keyset_id_round_trip() {
    let id = Id::new("009a1f293253e41e".to_string()).unwrap();
    assert_eq!(id.as_string(), "009a1f293253e41e");
}

#[test]
fn keyset_id_rejects_bad_text() {
    for bad in ["", "009a1f293253e41", "019a1f293253e41e", "009A1f293253e41e", "009a1f293253e41g"] {
        assert!(matches!(Id::new(bad.to_string()), Err(ClientError::InvalidKeysetId)));
    }
}

#[test]
fn keyset_accessors() {
    let id = Arc::new(Id::new("00ffffffffffffff".to_string()).unwrap());
    let keys = Arc::new(
        Keys::new(vec![(1, "02aa".to_string()), (2, "02bb".to_string())]).unwrap(),
    );
    let ks = KeySet::new(id, keys);
    assert_eq!(ks.id().as_string(), "00ffffffffffffff");
    assert_eq!(
        ks.keys().entries_vec(),
        vec![(1, "02aa".to_string()), (2, "02bb".to_string())]
    );
}

#[test]
fn keys_need_ascending_amounts() {
    assert!(Keys::new(vec![(2, "a".to_string()), (1, "b".to_string())]).is_none());
    assert!(Keys::new(vec![(2, "a".to_string()), (2, "b".to_string())]).is_none());
    assert!(Keys::new(vec![]).is_some());
}

#[test]
fn keyset_response_ids() {
    let ids = vec![
        Arc::new(Id::new("0000000000000001".to_string()).unwrap()),
        Arc::new(Id::new("0000000000000002".to_string()).unwrap()),
    ];
    let res = KeySetResponse::new(ids);
    let back: Vec<String> = res.keyset_ids().iter().map(|i| i.as_string()).collect();
    assert_eq!(back, vec!["0000000000000001".to_string(), "0000000000000002".to_string()]);
}

#[test]
fn secret_is_hex_of_32_bytes() {
    let s = Secret::new();
    let text = s.as_string();
    assert_eq!(text.len(), 64);
    assert!(text.chars().all(|c| c.is_ascii_hexdigit() && !c.is_ascii_uppercase()));
    assert_eq!(s.as_bytes(), text.as_bytes().to_vec());
    assert_ne!(Secret::new().as_string(), text);
}

#[test]
fn secret_from_string() {
    let s = Secret::from_string("my secret é".to_string()).unwrap();
    assert_eq!(s.as_string(), "my secret é");
    assert_eq!(s.as_bytes(), "my secret é".as_bytes().to_vec());
}
