use vstd::prelude::*;
use crate::error::{classifies, error_body_of, message_of, ClientError};
use crate::keyset::Id;
use crate::mint_url::{join_url, joined_segments, MintUrl};

verus! {

/// The endpoints of a mint.
#[derive(Debug)]
pub enum Endpoint {
    Keys,
    Keyset(Id),
    Keysets,
    MintQuote,
    Mint,
    MeltQuote,
    Melt,
    Swap,
    CheckState,
    Info,
}

pub open spec fn seg_v1() -> Seq<char> {
    seq!['v', '1']
}

pub open spec fn seg_keys() -> Seq<char> {
    seq!['k', 'e', 'y', 's']
}

pub open spec fn seg_keysets() -> Seq<char> {
    seq!['k', 'e', 'y', 's', 'e', 't', 's']
}

pub open spec fn seg_mint() -> Seq<char> {
    seq!['m', 'i', 'n', 't']
}

pub open spec fn seg_melt() -> Seq<char> {
    seq!['m', 'e', 'l', 't']
}

pub open spec fn seg_quote() -> Seq<char> {
    seq!['q', 'u', 'o', 't', 'e']
}

pub open spec fn seg_bolt11() -> Seq<char> {
    seq!['b', 'o', 'l', 't', '1', '1']
}

pub open spec fn seg_swap() -> Seq<char> {
    seq!['s', 'w', 'a', 'p']
}

pub open spec fn seg_checkstate() -> Seq<char> {
    seq!['c', 'h', 'e', 'c', 'k', 's', 't', 'a', 't', 'e']
}

pub open spec fn seg_info() -> Seq<char> {
    seq!['i', 'n', 'f', 'o']
}

/// The path segments of each endpoint, relative to the mint's URL.
pub open spec fn endpoint_path(e: Endpoint) -> Seq<Seq<char>> {
    match e {
        Endpoint::Keys => seq![seg_v1(), seg_keys()],
        Endpoint::Keyset(id) => seq![seg_v1(), seg_keys(), id.text()],
        Endpoint::Keysets => seq![seg_v1(), seg_keysets()],
        Endpoint::MintQuote => seq![seg_v1(), seg_mint(), seg_quote(), seg_bolt11()],
        Endpoint::Mint => seq![seg_v1(), seg_mint(), seg_bolt11()],
        Endpoint::MeltQuote => seq![seg_v1(), seg_melt(), seg_quote(), seg_bolt11()],
        Endpoint::Melt => seq![seg_v1(), seg_melt(), seg_bolt11()],
        Endpoint::Swap => seq![seg_v1(), seg_swap()],
        Endpoint::CheckState => seq![seg_v1(), seg_checkstate()],
        Endpoint::Info => seq![seg_v1(), seg_info()],
    }
}

/// A client that speaks to mints over HTTP; it holds no state between calls.
#[derive(Debug, Clone, Copy)]
pub struct HttpClient {}

impl HttpClient {
    pub fn new() -> (r: HttpClient) {
        HttpClient {  }
    }

    /// The URL of an endpoint of the mint at `mint_url`.
    pub fn endpoint_url(&self, mint_url: MintUrl, endpoint: &Endpoint) -> (r: Result<
        MintUrl,
        ClientError,
    >)
        ensures
            match mint_url.path_view() {
                Some(segs) => match r {
                    Ok(u) => u.prefix == mint_url.prefix && u.suffix == mint_url.suffix
                        && u.path_view() == Some(joined_segments(segs, endpoint_path(*endpoint))),
                    Err(_) => false,
                },
                None => r matches Err(ClientError::UrlConstruction),
            },
    {
        proof {
            reveal_strlit("v1");
            reveal_strlit("keys");
            reveal_strlit("keysets");
            reveal_strlit("mint");
            reveal_strlit("melt");
            reveal_strlit("quote");
            reveal_strlit("bolt11");
            reveal_strlit("swap");
            reveal_strlit("checkstate");
            reveal_strlit("info");
            assert("v1"@ =~= seg_v1());
            assert("keys"@ =~= seg_keys());
            assert("keysets"@ =~= seg_keysets());
            assert("mint"@ =~= seg_mint());
            assert("melt"@ =~= seg_melt());
            assert("quote"@ =~= seg_quote());
            assert("bolt11"@ =~= seg_bolt11());
            assert("swap"@ =~= seg_swap());
            assert("checkstate"@ =~= seg_checkstate());
            assert("info"@ =~= seg_info());
        }
        let id_text: String;
        let segs: Vec<&str> = match endpoint {
            Endpoint::Keys => vec!["v1", "keys"],
            Endpoint::Keyset(id) => {
                id_text = id.as_string();
                vec!["v1", "keys", id_text.as_str()]
            },
            Endpoint::Keysets => vec!["v1", "keysets"],
            Endpoint::MintQuote => vec!["v1", "mint", "quote", "bolt11"],
            Endpoint::Mint => vec!["v1", "mint", "bolt11"],
            Endpoint::MeltQuote => vec!["v1", "melt", "quote", "bolt11"],
            Endpoint::Melt => vec!["v1", "melt", "bolt11"],
            Endpoint::Swap => vec!["v1", "swap"],
            Endpoint::CheckState => vec!["v1", "checkstate"],
            Endpoint::Info => vec!["v1", "info"],
        };
        assert(segs@.map_values(|p: &str| p@) =~= endpoint_path(*endpoint));
        join_url(mint_url, segs.as_slice())
    }
}

/// The outcome of a call, from the strict decoding of the response and the response's text:
/// a value that decoded is returned as it is; otherwise the text is read as a mint's error
/// body and classified.
pub fn resolve_response<T>(decoded: Result<T, serde_json::Error>, body: &str) -> (r: Result<
    T,
    ClientError,
>)
    ensures
        match decoded {
            Ok(t) => r == Ok::<T, ClientError>(t),
            Err(_) => match error_body_of(body@) {
                Some((code, error, detail)) => match r {
                    Err(k) => classifies(message_of(error, detail), k),
                    Ok(_) => false,
                },
                None => r matches Err(ClientError::SerdeJson(_)),
            },
        },
{
    match decoded {
        Ok(t) => Ok(t),
        Err(_) => match ClientError::from_json(body) {
            Ok(k) => Err(k),
            Err(k) => Err(k),
        },
    }
}

} // verus!
