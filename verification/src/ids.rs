//! Correlation-id generation and the session clock.
//!
//! A correlation id is a fixed-length random alphanumeric string minted for
//! each newly created proof job. There is no uniqueness guarantee beyond
//! statistical collision resistance; what is proved here is the shape of the
//! result: exactly [`ID_LEN`] characters, each an ASCII digit or letter.

use rand::RngExt;
use vstd::prelude::*;

verus! {

/// Length of every generated correlation id.
pub const ID_LEN: usize = 37;

/// The bytes the id generator may produce: ASCII digits and letters.
pub open spec fn is_alnum_byte(b: u8) -> bool {
    (48 <= b && b <= 57) || (65 <= b && b <= 90) || (97 <= b && b <= 122)
}

/// The characters of a generated id: ASCII digits and letters.
pub open spec fn is_alnum_char(c: char) -> bool {
    ('0' <= c && c <= '9') || ('A' <= c && c <= 'Z') || ('a' <= c && c <= 'z')
}

/// A non-empty string of alphanumeric characters of the fixed id length.
pub open spec fn is_generated_id(s: Seq<char>) -> bool {
    s.len() == ID_LEN && forall|i: int| 0 <= i < s.len() ==> is_alnum_char(#[trigger] s[i])
}

/// Relies on rand's `Alphanumeric` distribution: sampling it yields one byte
/// drawn uniformly from the ASCII digits and letters.
#[verifier::external_body]
fn sample_alphanumeric() -> (r: u8)
    ensures
        is_alnum_byte(r),
{
    rand::rng().sample(rand::distr::Alphanumeric)
}

/// Relies on `String::from_utf8`: a vector of ASCII bytes decodes to the
/// string whose characters are exactly those bytes.
#[verifier::external_body]
fn ascii_to_string(bytes: Vec<u8>) -> (r: String)
    requires
        forall|i: int| 0 <= i < bytes@.len() ==> bytes@[i] < 128,
    ensures
        r@.len() == bytes@.len(),
        forall|i: int| 0 <= i < r@.len() ==> r@[i] == bytes@[i] as char,
{
    match String::from_utf8(bytes) {
        Result::Ok(s) => s,
        Result::Err(_) => String::new(),
    }
}

/// Mint a fresh correlation id: a random alphanumeric string of the fixed
/// id length (in particular, never empty).
pub fn get_uuid() -> (r: String)
    ensures
        is_generated_id(r@),
{
    let mut bytes: Vec<u8> = Vec::new();
    let mut n: usize = 0;
    while n < ID_LEN
        invariant
            n == bytes@.len(),
            n <= ID_LEN,
            forall|i: int| 0 <= i < bytes@.len() ==> is_alnum_byte(#[trigger] bytes@[i]),
        decreases ID_LEN - n,
    {
        bytes.push(sample_alphanumeric());
        n = n + 1;
    }
    ascii_to_string(bytes)
}

/// Relies on `std::time::SystemTime`: seconds elapsed since the Unix epoch,
/// or zero if the system clock reads earlier than the epoch. Nothing can be
/// promised of a clock reading, so the contract is empty.
#[verifier::external_body]
pub fn get_current_time() -> u64 {
    match std::time::SystemTime::now().duration_since(std::time::SystemTime::UNIX_EPOCH) {
        Result::Ok(d) => d.as_secs(),
        Result::Err(_) => 0,
    }
}

} // verus!
