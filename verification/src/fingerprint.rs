//! The fingerprint of a master key: four bytes, written as eight hex digits.

use vstd::prelude::*;

verus! {

/// The value of a hex digit, in either case; `None` for any other character.
pub open spec fn hex_value(c: char) -> Option<int> {
    let n = c as u32 as int;
    if 48 <= n <= 57 {
        Some(n - 48)
    } else if 97 <= n <= 102 {
        Some(n - 87)
    } else if 65 <= n <= 70 {
        Some(n - 55)
    } else {
        None
    }
}

/// The lower-case hex digit of a value below sixteen.
pub open spec fn hex_digit(n: int) -> char {
    if n < 10 {
        (48 + n) as u8 as char
    } else {
        (87 + n) as u8 as char
    }
}

/// Eight hex digits and nothing else.
pub open spec fn is_hex_text(s: Seq<char>) -> bool {
    &&& s.len() == 8
    &&& forall|i: int| 0 <= i < 8 ==> (#[trigger] hex_value(s[i])) is Some
}

/// The four bytes that eight hex digits spell, two digits to a byte, the
/// high one first.
pub open spec fn hex_bytes(s: Seq<char>) -> Seq<u8> {
    Seq::new(4, |i: int| (16 * hex_value(s[2 * i])->0 + hex_value(s[2 * i + 1])->0) as u8)
}

/// Bytes in lower-case hex, two digits to a byte, the high one first.
pub open spec fn hex_text(bytes: Seq<u8>) -> Seq<char> {
    Seq::new(
        2 * bytes.len(),
        |i: int|
            if i % 2 == 0 {
                hex_digit(bytes[i / 2] as int / 16)
            } else {
                hex_digit(bytes[i / 2] as int % 16)
            },
    )
}

/// What `bitcoin::util::bip32::Fingerprint::from_str` says of a text that it
/// refuses.
pub uninterp spec fn hex_error(s: Seq<char>) -> Seq<char>;

/// Identifies a signer: the first four bytes of the hash of its master
/// public key.
#[derive(Clone, Copy, Debug, PartialEq, Eq, Hash)]
pub struct Fingerprint {
    pub bytes: [u8; 4],
}

impl View for Fingerprint {
    type V = Seq<u8>;

    open spec fn view(&self) -> Seq<u8> {
        self.bytes@
    }
}

/// Calls `bitcoin::util::bip32::Fingerprint::from_str` and takes the bytes
/// out of what it returns. That function accepts exactly the texts of eight
/// hex digits, of either case, and reads each pair of digits as one byte;
/// for any other text it returns an error, whose `Display` text is handed on.
#[verifier::external_body]
fn parse_hex(s: &str) -> (r: Result<[u8; 4], String>)
    ensures
        is_hex_text(s@) ==> r is Ok && r->Ok_0@ == hex_bytes(s@),
        !is_hex_text(s@) ==> r is Err && r->Err_0@ == hex_error(s@),
{
    match <bitcoin::util::bip32::Fingerprint as std::str::FromStr>::from_str(s) {
        Ok(f) => Ok(f.to_bytes()),
        Err(e) => Err(e.to_string()),
    }
}

/// Calls `to_string` on a `bitcoin::util::bip32::Fingerprint` made of
/// `bytes`. Its `Display` writes each byte as two lower-case hex digits.
#[verifier::external_body]
fn format_hex(bytes: &[u8; 4]) -> (r: String)
    ensures
        r@ == hex_text(bytes@),
{
    bitcoin::util::bip32::Fingerprint::from(&bytes[..]).to_string()
}

impl Fingerprint {
    /// Reads a fingerprint from eight hex digits. Any other text is refused
    /// with the parser's own words.
    pub fn from_str(s: &str) -> (r: Result<Fingerprint, String>)
        ensures
            is_hex_text(s@) ==> r is Ok && r->Ok_0@ == hex_bytes(s@),
            !is_hex_text(s@) ==> r is Err && r->Err_0@ == hex_error(s@),
    {
        match parse_hex(s) {
            Ok(bytes) => Ok(Fingerprint { bytes }),
            Err(e) => Err(e),
        }
    }

    /// The fingerprint as eight lower-case hex digits.
    pub fn to_string(&self) -> (r: String)
        ensures
            r@ == hex_text(self@),
    {
        format_hex(&self.bytes)
    }
}

/// A hex digit written for a value reads back as that value.
pub proof fn lemma_hex_digit_value(n: int)
    requires
        0 <= n < 16,
    ensures
        hex_value(hex_digit(n)) == Some(n),
{
}

/// What `to_string` writes, `from_str` accepts and reads back as the same
/// four bytes.
pub proof fn lemma_text_reads_back(bytes: Seq<u8>)
    requires
        bytes.len() == 4,
    ensures
        is_hex_text(hex_text(bytes)),
        hex_bytes(hex_text(bytes)) == bytes,
{
    let s = hex_text(bytes);
    assert forall|i: int| 0 <= i < 8 implies (#[trigger] hex_value(s[i])) is Some by {
        if i % 2 == 0 {
            lemma_hex_digit_value(bytes[i / 2] as int / 16);
        } else {
            lemma_hex_digit_value(bytes[i / 2] as int % 16);
        }
    }
    assert forall|i: int| 0 <= i < 4 implies hex_bytes(s)[i] == bytes[i] by {
        lemma_hex_digit_value(bytes[i] as int / 16);
        lemma_hex_digit_value(bytes[i] as int % 16);
        assert(s[2 * i] == hex_digit(bytes[i] as int / 16));
        assert(s[2 * i + 1] == hex_digit(bytes[i] as int % 16));
    }
    assert(hex_bytes(s) =~= bytes);
}

} // verus!
