use vstd::prelude::*;
use vstd::utf8::encode_utf8;
use crate::error::ClientError;
use crate::utils::random_bytes;

verus! {

/// The lower-case hexadecimal digit of `n < 16`.
pub open spec fn hex_digit(n: int) -> char {
    if n < 10 {
        ('0' as int + n) as char
    } else {
        ('a' as int + (n - 10)) as char
    }
}

/// Two hexadecimal digits per byte, high nibble first.
pub open spec fn hex_of(b: Seq<u8>) -> Seq<char>
    decreases b.len(),
{
    if b.len() == 0 {
        Seq::empty()
    } else {
        hex_of(b.drop_last()) + seq![hex_digit(b.last() as int / 16), hex_digit(b.last() as int % 16)]
    }
}

/// The secret of a proof, in its textual form.
#[derive(Debug)]
pub struct Secret {
    text: String,
}

fn hex_digit_str(n: u8) -> (r: &'static str)
    requires
        n < 16,
    ensures
        r@ == seq![hex_digit(n as int)],
{
    let digits = "0123456789abcdef";
    proof {
        reveal_strlit("0123456789abcdef");
    }
    let r = digits.substring_char(n as usize, n as usize + 1);
    assert(r@ =~= seq![hex_digit(n as int)]);
    r
}

impl Secret {
    pub closed spec fn text(&self) -> Seq<char> {
        self.text@
    }

    /// A fresh secret: 32 random bytes in hexadecimal.
    pub fn new() -> (r: Secret)
        ensures
            exists|b: Seq<u8>| b.len() == 32 && r.text() == hex_of(b),
    {
        let bytes = random_bytes();
        let mut text = String::new();
        let mut i: usize = 0;
        while i < bytes.len()
            invariant
                i <= bytes@.len(),
                text@ == hex_of(bytes@.subrange(0, i as int)),
            decreases bytes.len() - i,
        {
            let b = bytes[i];
            let ghost prefix = bytes@.subrange(0, i + 1);
            assert(prefix.drop_last() =~= bytes@.subrange(0, i as int));
            text.append(hex_digit_str(b / 16));
            text.append(hex_digit_str(b % 16));
            assert(text@ =~= hex_of(prefix));
            i = i + 1;
        }
        assert(bytes@.subrange(0, 32) =~= bytes@);
        Secret { text }
    }

    /// The UTF-8 bytes of the secret's text.
    pub fn as_bytes(&self) -> (r: Vec<u8>)
        ensures
            r@ == encode_utf8(self.text()),
    {
        self.text.as_str().as_bytes_vec()
    }

    pub fn as_string(&self) -> (r: String)
        ensures
            r@ == self.text(),
    {
        self.text.clone()
    }

    /// A secret with the given text; every text is one.
    pub fn from_string(secret: String) -> (r: Result<Secret, ClientError>)
        ensures
            r matches Ok(s) && s.text() == secret@,
    {
        Ok(Secret { text: secret })
    }
}

impl Default for Secret {
    fn default() -> (r: Secret)
        ensures
            exists|b: Seq<u8>| b.len() == 32 && r.text() == hex_of(b),
    {
        Secret::new()
    }
}

} // verus!
