use vstd::prelude::*;

use base64::Engine;
use rand::Rng;

verus! {

/// The JSON text that serde_json writes for a string.
pub uninterp spec fn json_of_text(s: Seq<char>) -> Seq<char>;

/// The string that serde_json reads out of a JSON text, if the text is a JSON
/// string.
pub uninterp spec fn text_of_json(raw: Seq<char>) -> Option<Seq<char>>;

/// The boolean that serde_json reads out of a JSON text, if the text is one.
pub uninterp spec fn bool_of_json(raw: Seq<char>) -> Option<bool>;

/// The standard, padded base64 text of a byte string.
pub uninterp spec fn base64_of(b: Seq<u8>) -> Seq<char>;

/// Relies on serde_json::to_string on a `str`: it writes the escaped JSON string
/// into a `Vec<u8>`, which cannot fail, and serde_json reads that text back as
/// the same string.
#[verifier::external_body]
pub(crate) fn json_text(s: &str) -> (r: String)
    ensures
        r@ == json_of_text(s@),
        text_of_json(r@) == Some(s@),
{
    match serde_json::to_string(s) {
        Ok(j) => j,
        Err(_) => String::new(),
    }
}

/// Relies on serde_json::from_str::<String>: succeeds exactly on a JSON string.
#[verifier::external_body]
pub(crate) fn read_json_text(raw: &str) -> (r: Option<String>)
    ensures
        match r {
            Some(t) => text_of_json(raw@) == Some(t@),
            None => text_of_json(raw@) is None,
        },
{
    serde_json::from_str::<String>(raw).ok()
}

/// Relies on serde_json::to_string on a `bool`: `true` or `false`, which
/// serde_json reads back as the same boolean.
#[verifier::external_body]
pub(crate) fn json_bool(b: bool) -> (r: String)
    ensures
        r@ == (if b { "true"@ } else { "false"@ }),
        bool_of_json(r@) == Some(b),
{
    match serde_json::to_string(&b) {
        Ok(j) => j,
        Err(_) => String::new(),
    }
}

/// Relies on serde_json::from_str::<bool>: succeeds exactly on a JSON boolean.
#[verifier::external_body]
pub(crate) fn read_json_bool(raw: &str) -> (r: Option<bool>)
    ensures
        r == bool_of_json(raw@),
{
    serde_json::from_str::<bool>(raw).ok()
}

/// Relies on base64's `general_purpose::STANDARD` engine: padded base64 of the
/// bytes, four characters for each started group of three bytes, so 44 for 32.
#[verifier::external_body]
pub(crate) fn base64_standard(bytes: &[u8; 32]) -> (r: String)
    ensures
        r@ == base64_of(bytes@),
        r@.len() == 44,
{
    base64::engine::general_purpose::STANDARD.encode(bytes)
}

/// Relies on rand's `thread_rng().fill`: 32 bytes from the thread's
/// cryptographically secure generator.
#[verifier::external_body]
pub(crate) fn random_bytes() -> (r: [u8; 32])
    ensures
        r@.len() == 32,
{
    let mut bytes = [0u8; 32];
    rand::thread_rng().fill(&mut bytes);
    bytes
}

/// Relies on rand's `thread_rng().gen_range(0..=999_999)`: a value of the
/// inclusive range.
#[verifier::external_body]
pub(crate) fn random_code_number() -> (r: u32)
    ensures
        r <= 999_999,
{
    rand::thread_rng().gen_range(0..=999_999u32)
}

} // verus!
