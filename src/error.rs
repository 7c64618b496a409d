use vstd::prelude::*;
use crate::utils::{extract_url_from_error, first_url, opt_view};

verus! {

/// A failure of a call to a mint.
#[derive(Debug)]
pub enum ClientError {
    /// The payment behind a quote has not settled yet.
    InvoiceNotPaid,
    /// The mint's Lightning node cannot be reached; carries the first URL of the message.
    LightingWalletNotResponding(Option<String>),
    /// The mint URL could not be parsed.
    UrlParse(url::ParseError),
    /// A body could not be decoded as JSON of the expected shape.
    SerdeJson(serde_json::Error),
    /// The request itself failed.
    MinReq(minreq::Error),
    /// The mint URL cannot take path segments.
    UrlConstruction,
    /// A keyset id that is not in its textual form.
    InvalidKeysetId,
    /// Any other error message of the mint.
    Custom(String),
}

/// The error body that a mint sends.
#[derive(Debug, Clone)]
pub struct MintErrorResponse {
    pub code: u32,
    pub error: Option<String>,
    pub detail: Option<String>,
}

pub open spec fn invoice_not_paid_phrase() -> Seq<char> {
    seq![
        'L', 'i', 'g', 'h', 't', 'n', 'i', 'n', 'g', ' ', 'i', 'n', 'v', 'o', 'i', 'c', 'e', ' ',
        'n', 'o', 't', ' ', 'p', 'a', 'i', 'd', ' ', 'y', 'e', 't', '.',
    ]
}

pub open spec fn wallet_not_responding_phrase() -> Seq<char> {
    seq![
        'L', 'i', 'g', 'h', 't', 'n', 'i', 'n', 'g', ' ', 'w', 'a', 'l', 'l', 'e', 't', ' ', 'n',
        'o', 't', ' ', 'r', 'e', 's', 'p', 'o', 'n', 'd', 'i', 'n', 'g',
    ]
}

pub open spec fn has_prefix(s: Seq<char>, p: Seq<char>) -> bool {
    p.len() <= s.len() && s.subrange(0, p.len() as int) == p
}

/// The message of an error body: `error`, else `detail`, else empty.
pub open spec fn message_of(error: Option<Seq<char>>, detail: Option<Seq<char>>) -> Seq<char> {
    match error {
        Some(e) => e,
        None => match detail {
            Some(d) => d,
            None => Seq::empty(),
        },
    }
}

/// `e` is what a mint's error message `msg` stands for.
pub open spec fn classifies(msg: Seq<char>, e: ClientError) -> bool {
    if has_prefix(msg, invoice_not_paid_phrase()) {
        e is InvoiceNotPaid
    } else if has_prefix(msg, wallet_not_responding_phrase()) {
        match e {
            ClientError::LightingWalletNotResponding(u) => opt_view(u) == first_url(msg),
            _ => false,
        }
    } else {
        match e {
            ClientError::Custom(s) => s@ == msg,
            _ => false,
        }
    }
}

/// The fields of the error body in `text`, where `text` is JSON of that shape.
pub uninterp spec fn error_body_of(text: Seq<char>) -> Option<
    (u32, Option<Seq<char>>, Option<Seq<char>>),
>;

/// Relies on serde_json::from_str and serde_json::from_value: `text` parses as JSON, `code`
/// holds a number that fits `u32`, and `error` and `detail` each hold a string or null or are
/// absent.
#[verifier::external_body]
fn decode_error_body(text: &str) -> (r: Result<MintErrorResponse, serde_json::Error>)
    ensures
        match r {
            Ok(m) => error_body_of(text@) == Some((m.code, opt_view(m.error), opt_view(m.detail))),
            Err(_) => error_body_of(text@) is None,
        },
{
    let v: serde_json::Value = serde_json::from_str(text)?;
    let code: u32 = serde_json::from_value(v["code"].clone())?;
    let error: Option<String> = serde_json::from_value(v["error"].clone())?;
    let detail: Option<String> = serde_json::from_value(v["detail"].clone())?;
    Ok(MintErrorResponse { code, error, detail })
}

/// Whether `s` starts with `p`.
pub fn starts_with(s: &str, p: &str) -> (r: bool)
    ensures
        r == has_prefix(s@, p@),
{
    let n = p.unicode_len();
    if n > s.unicode_len() {
        return false;
    }
    let mut i: usize = 0;
    while i < n
        invariant
            n == p@.len(),
            n <= s@.len(),
            i <= n,
            s@.subrange(0, i as int) == p@.subrange(0, i as int),
        decreases n - i,
    {
        if s.get_char(i) != p.get_char(i) {
            assert(s@.subrange(0, n as int)[i as int] != p@[i as int]);
            return false;
        }
        assert(s@.subrange(0, i + 1) =~= s@.subrange(0, i as int).push(s@[i as int]));
        assert(p@.subrange(0, i + 1) =~= p@.subrange(0, i as int).push(p@[i as int]));
        i = i + 1;
    }
    assert(p@.subrange(0, n as int) =~= p@);
    true
}

impl MintErrorResponse {
    pub open spec fn message(&self) -> Seq<char> {
        message_of(opt_view(self.error), opt_view(self.detail))
    }
}

impl ClientError {
    /// Classifies a mint's error message.
    pub fn from_message(msg: &str) -> (r: ClientError)
        ensures
            classifies(msg@, r),
    {
        let not_paid = "Lightning invoice not paid yet.";
        let not_responding = "Lightning wallet not responding";
        proof {
            reveal_strlit("Lightning invoice not paid yet.");
            reveal_strlit("Lightning wallet not responding");
            assert(not_paid@ =~= invoice_not_paid_phrase());
            assert(not_responding@ =~= wallet_not_responding_phrase());
        }
        if starts_with(msg, not_paid) {
            ClientError::InvoiceNotPaid
        } else if starts_with(msg, not_responding) {
            ClientError::LightingWalletNotResponding(extract_url_from_error(msg))
        } else {
            ClientError::Custom(msg.to_string())
        }
    }

    /// Classifies a decoded error body by its message.
    pub fn from_response(res: &MintErrorResponse) -> (r: ClientError)
        ensures
            classifies(res.message(), r),
    {
        match &res.error {
            Some(e) => ClientError::from_message(e.as_str()),
            None => match &res.detail {
                Some(d) => ClientError::from_message(d.as_str()),
                None => {
                    proof {
                        reveal_strlit("");
                        assert(""@ =~= Seq::<char>::empty());
                    }
                    ClientError::from_message("")
                },
            },
        }
    }

    /// Decodes an error body and classifies its message; fails where `json` is not such a body.
    pub fn from_json(json: &str) -> (r: Result<ClientError, ClientError>)
        ensures
            match error_body_of(json@) {
                Some((code, error, detail)) => match r {
                    Ok(e) => classifies(message_of(error, detail), e),
                    Err(_) => false,
                },
                None => r matches Err(ClientError::SerdeJson(_)),
            },
    {
        match decode_error_body(json) {
            Ok(res) => Ok(ClientError::from_response(&res)),
            Err(e) => Err(ClientError::SerdeJson(e)),
        }
    }
}

} // verus!
