use cashu_client::client::{resolve_response, Endpoint, HttpClient};
use cashu_client::error::ClientError;
use cashu_client::keyset::Id;
use cashu_client::mint_url::{join_url, MintUrl};

#[test]
fn join_without_trailing_separator() {
    let url = MintUrl::parse("https://mint.example.com/base").unwrap();
    let joined = join_url(url, &["v1", "keys"]).unwrap();
    assert_eq!(joined.as_string(), "https://mint.example.com/base/v1/keys");
}

#[test]
fn join_with_trailing_separator() {
    let url = MintUrl::parse("https://mint.example.com/base/").unwrap();
    let joined = join_url(url, &["v1", "keys"]).unwrap();
    assert_eq!(joined.as_string(), "https://mint.example.com/base/v1/keys");
}

#[test]
fn join_onto_root() {
    let url = MintUrl::parse("http://localhost:3338").unwrap();
    let joined = join_url(url, &["v1", "info"]).unwrap();
    assert_eq!(joined.as_string(), "http://localhost:3338/v1/info");
}

#[test]
fn join_keeps_query() {
    let url = MintUrl::parse("https://m.example/a?x=1").unwrap();
    let joined = join_url(url, &["v1", "swap"]).unwrap();
    assert_eq!(joined.as_string(), "https://m.example/a/v1/swap?x=1");
}

#[test]
fn join_onto_cannot_be_base() {
    let url = MintUrl::parse("mailto:someone@example.com").unwrap();
    assert!(matches!(join_url(url, &["v1"]), Err(ClientError::UrlConstruction)));
}

#[test]
fn parse_rejects_relative() {
    assert!(matches!(MintUrl::parse("not a url"), Err(ClientError::UrlParse(_))));
}

#[test]
fn endpoint_urls() {
    let client = HttpClient::new();
    let base = "https://mint.example.com/";
    let cases = [
        (Endpoint::Keys, "https://mint.example.com/v1/keys"),
        (Endpoint::Keysets, "https://mint.example.com/v1/keysets"),
        (Endpoint::MintQuote, "https://mint.example.com/v1/mint/quote/bolt11"),
        (Endpoint::Mint, "https://mint.example.com/v1/mint/bolt11"),
        (Endpoint::MeltQuote, "https://mint.example.com/v1/melt/quote/bolt11"),
        (Endpoint::Melt, "https://mint.example.com/v1/melt/bolt11"),
        (Endpoint::Swap, "https://mint.example.com/v1/swap"),
        (Endpoint::CheckState, "https://mint.example.com/v1/checkstate"),
        (Endpoint::Info, "https://mint.example.com/v1/info"),
    ];
    for (e, want) in cases.iter() {
        let url = client.endpoint_url(MintUrl::parse(base).unwrap(), e).unwrap();
        assert_eq!(url.as_string(), *want);
    }
    let id = Id::new("009a1f293253e41e".to_string()).unwrap();
    let url = client
        .endpoint_url(MintUrl::parse(base).unwrap(), &Endpoint::Keyset(id))
        .unwrap();
    assert_eq!(url.as_string(), "https://mint.example.com/v1/keys/009a1f293253e41e");
}

#[test]
fn decoded_response_is_kept() {
    let body = "42";
    let decoded = serde_json::from_str::<u64>(body);
    assert_eq!(resolve_response(decoded, body).unwrap(), 42);
}

#[test]
fn undecodable_response_is_classified() {
    let body = r#"{"code":0,"error":"Lightning invoice not paid yet."}"#;
    let decoded = serde_json::from_str::<u64>(body);
    assert!(matches!(resolve_response(decoded, body), Err(ClientError::InvoiceNotPaid)));
    let decoded = serde_json::from_str::<u64>("[1]");
    assert!(matches!(resolve_response(decoded, "[1]"), Err(ClientError::SerdeJson(_))));
}
