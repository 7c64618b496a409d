use vstd::prelude::*;

verus! {

/// White space as Unicode's `White_Space` property lists it.
pub open spec fn is_white_space(c: char) -> bool {
    let n = c as u32;
    (0x09 <= n && n <= 0x0d) || n == 0x20 || n == 0x85 || n == 0xa0 || n == 0x1680 || (0x2000
        <= n && n <= 0x200a) || n == 0x2028 || n == 0x2029 || n == 0x202f || n == 0x205f || n
        == 0x3000
}

pub open spec fn https_prefix() -> Seq<char> {
    seq!['h', 't', 't', 'p', 's', ':', '/', '/']
}

pub open spec fn http_prefix() -> Seq<char> {
    seq!['h', 't', 't', 'p', ':', '/', '/']
}

/// `t` holds `p` at position `i`.
pub open spec fn holds_at(t: Seq<char>, i: int, p: Seq<char>) -> bool {
    0 <= i && i + p.len() <= t.len() && t.subrange(i, i + p.len()) == p
}

/// Length of the scheme part of a URL starting at `i` (`https://` or `http://`, followed by
/// at least one character that is not white space), or 0 where none starts there.
pub open spec fn scheme_len_at(t: Seq<char>, i: int) -> int {
    if holds_at(t, i, https_prefix()) && i + 8 < t.len() && !is_white_space(t[i + 8]) {
        8
    } else if holds_at(t, i, http_prefix()) && i + 7 < t.len() && !is_white_space(t[i + 7]) {
        7
    } else {
        0
    }
}

/// The first position at or after `j` that is white space, or the end of `t`.
pub open spec fn run_end(t: Seq<char>, j: int) -> int
    decreases t.len() - j,
{
    if j >= t.len() || j < 0 {
        t.len() as int
    } else if is_white_space(t[j]) {
        j
    } else {
        run_end(t, j + 1)
    }
}

/// The leftmost URL at or after `i`: `http://` or `https://` and the longest run of
/// characters that are not white space after it.
pub open spec fn first_url_from(t: Seq<char>, i: int) -> Option<Seq<char>>
    decreases t.len() - i,
{
    if i < 0 || i >= t.len() {
        None
    } else if scheme_len_at(t, i) > 0 {
        Some(t.subrange(i, run_end(t, i + scheme_len_at(t, i))))
    } else {
        first_url_from(t, i + 1)
    }
}

pub open spec fn first_url(t: Seq<char>) -> Option<Seq<char>> {
    first_url_from(t, 0)
}

/// The pattern of an absolute http(s) URL without white space.
pub open spec fn url_pattern() -> Seq<char> {
    seq!['h', 't', 't', 'p', 's', '?', ':', '/', '/', '[', '^', '\\', 's', ']', '+']
}

pub open spec fn opt_view(o: Option<String>) -> Option<Seq<char>> {
    match o {
        Some(s) => Some(s@),
        None => None,
    }
}

/// Relies on regex::Regex::new and Regex::find: the pattern `https?://[^\s]+` compiles, and
/// `find` gives its leftmost match, where `+` takes as many characters as it can and `\s` is
/// Unicode white space.
#[verifier::external_body]
fn find_url_match(pattern: &str, text: &str) -> (r: Option<String>)
    requires
        pattern@ == url_pattern(),
    ensures
        opt_view(r) == first_url(text@),
{
    regex::Regex::new(pattern).unwrap().find(text).map(|m| m.as_str().to_string())
}

/// The first absolute http(s) URL in an error message, if any.
pub fn extract_url_from_error(error: &str) -> (r: Option<String>)
    ensures
        opt_view(r) == first_url(error@),
{
    let pattern = "https?://[^\\s]+";
    proof {
        reveal_strlit("https?://[^\\s]+");
        assert(pattern@ =~= url_pattern());
    }
    find_url_match(pattern, error)
}

pub open spec fn is_digest_of_some_bytes(r: Seq<u8>) -> bool {
    exists|b: Seq<u8>| b.len() == 32 && r == sha256_of(b)
}

/// SHA-256 digest of a byte sequence.
pub uninterp spec fn sha256_of(data: Seq<u8>) -> Seq<u8>;

/// Relies on rand::thread_rng and RngCore::fill_bytes: 32 bytes, of which nothing else is known.
#[verifier::external_body]
pub(crate) fn random_bytes() -> (r: Vec<u8>)
    ensures
        r@.len() == 32,
{
    let mut bytes = [0u8; 32];
    rand::RngCore::fill_bytes(&mut rand::thread_rng(), &mut bytes);
    bytes.to_vec()
}

/// Relies on bitcoin's sha256::Hash::hash and Hash::to_byte_array: the 32-byte digest of `data`.
#[verifier::external_body]
fn sha256(data: &Vec<u8>) -> (r: Vec<u8>)
    ensures
        r@ == sha256_of(data@),
        r@.len() == 32,
{
    let h = <bitcoin::hashes::sha256::Hash as bitcoin::hashes::Hash>::hash(data.as_slice());
    bitcoin::hashes::Hash::to_byte_array(h).to_vec()
}

/// The SHA-256 digest of 32 fresh random bytes.
pub fn random_hash() -> (r: Vec<u8>)
    ensures
        r@.len() == 32,
        is_digest_of_some_bytes(r@),
{
    let bytes = random_bytes();
    sha256(&bytes)
}

} // verus!
