use cashu_client::error::{ClientError, MintErrorResponse};
use cashu_client::utils::{extract_url_from_error, random_hash};

#[test]
fn test_decode_error() {
    let err = r#"{"code":0,"error":"Lightning invoice not paid yet."}"#;

    let error = ClientError::from_json(err).unwrap();

    match error {
        ClientError::InvoiceNotPaid => {}
        _ => panic!("Wrong error"),
    }

    let err = r#"{"code": 0, "error": "Lightning wallet not responding: Failed to connect to https://legend.lnbits.com due to: All connection attempts failed"}"#;
    let error = ClientError::from_json(err).unwrap();
    match error {
        ClientError::LightingWalletNotResponding(mint) => {
            assert_eq!(mint, Some("https://legend.lnbits.com".to_string()));
        }
        _ => panic!("Wrong error"),
    }
}

#[test]
fn other_error_text_is_custom() {
    let err = r#"{"code":11001,"error":"Token already spent."}"#;
    match ClientError::from_json(err).unwrap() {
        ClientError::Custom(s) => assert_eq!(s, "Token already spent."),
        _ => panic!("Wrong error"),
    }
}

#[test]
fn detail_is_used_without_error() {
    let err = r#"{"code":0,"detail":"quote not found"}"#;
    match ClientError::from_json(err).unwrap() {
        ClientError::Custom(s) => assert_eq!(s, "quote not found"),
        _ => panic!("Wrong error"),
    }
}

#[test]
fn error_is_preferred_to_detail() {
    let err = r#"{"code":0,"error":"Lightning invoice not paid yet. Retry","detail":"other"}"#;
    assert!(matches!(ClientError::from_json(err).unwrap(), ClientError::InvoiceNotPaid));
}

#[test]
fn empty_body_is_custom_empty() {
    match ClientError::from_json(r#"{"code":1}"#).unwrap() {
        ClientError::Custom(s) => assert_eq!(s, ""),
        _ => panic!("Wrong error"),
    }
}

#[test]
fn not_an_error_body_fails_to_decode() {
    assert!(matches!(ClientError::from_json("not json"), Err(ClientError::SerdeJson(_))));
    assert!(matches!(ClientError::from_json("200"), Err(ClientError::SerdeJson(_))));
    assert!(matches!(
        ClientError::from_json(r#"{"error":"x"}"#),
        Err(ClientError::SerdeJson(_))
    ));
}

#[test]
fn wallet_not_responding_without_url() {
    let err = r#"{"code":0,"error":"Lightning wallet not responding"}"#;
    match ClientError::from_json(err).unwrap() {
        ClientError::LightingWalletNotResponding(mint) => assert_eq!(mint, None),
        _ => panic!("Wrong error"),
    }
}

#[test]
fn response_message_is_classified() {
    let res = MintErrorResponse {
        code: 0,
        error: None,
        detail: Some("Lightning invoice not paid yet.".to_string()),
    };
    assert!(matches!(ClientError::from_response(&res), ClientError::InvoiceNotPaid));
}

#[test]
fn url_extraction() {
    assert_eq!(
        extract_url_from_error("see http://a.b/c?d=1 now"),
        Some("http://a.b/c?d=1".to_string())
    );
    assert_eq!(extract_url_from_error("https:// x http://y"), Some("http://y".to_string()));
    assert_eq!(extract_url_from_error("no url here"), None);
    assert_eq!(extract_url_from_error("ftp://x"), None);
}

#[test]
fn random_hash_is_a_digest() {
    let a = random_hash();
    let b = random_hash();
    assert_eq!(a.len(), 32);
    assert_ne!(a, b);
}
