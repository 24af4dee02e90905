//! The static artifact bundle.
//!
//! The prover replays pre-baked artifacts instead of computing proofs. The
//! bundle is parsed once at startup from a JSON document holding a hex
//! payload, a hex root hash, two recursive-proof strings, a final-proof
//! string and two further hex fields; a missing field or malformed hex is
//! the one fatal parse failure of the system.

use vstd::prelude::*;

verus! {

/// The value of one hex digit, or `None` for any other character.
pub open spec fn hex_digit_val(c: char) -> Option<int> {
    if '0' <= c && c <= '9' {
        Option::Some(c as int - '0' as int)
    } else if 'a' <= c && c <= 'f' {
        Option::Some(c as int - 'a' as int + 10)
    } else if 'A' <= c && c <= 'F' {
        Option::Some(c as int - 'A' as int + 10)
    } else {
        Option::None
    }
}

pub open spec fn is_hex_char(c: char) -> bool {
    hex_digit_val(c) is Some
}

/// A string that decodes as hex: even length, hex digits throughout.
pub open spec fn is_hex_string(s: Seq<char>) -> bool {
    s.len() % 2 == 0 && forall|i: int| 0 <= i < s.len() ==> is_hex_char(#[trigger] s[i])
}

/// The byte written as the two hex digits `hi` `lo`.
pub open spec fn hex_byte(hi: char, lo: char) -> u8
    recommends
        is_hex_char(hi),
        is_hex_char(lo),
{
    (hex_digit_val(hi).unwrap() * 16 + hex_digit_val(lo).unwrap()) as u8
}

/// The bytes a hex string decodes to, one per digit pair, high digit first.
pub open spec fn hex_decoded(s: Seq<char>) -> Seq<u8>
    recommends
        is_hex_string(s),
{
    Seq::new((s.len() / 2) as nat, |i: int| hex_byte(s[2 * i], s[2 * i + 1]))
}

/// Relies on `hex::decode`: it succeeds exactly on even-length strings of
/// hex digits (upper or lower case), and turns each digit pair into one
/// byte, high digit first.
#[verifier::external_body]
fn hex_decode(s: &str) -> (r: Option<Vec<u8>>)
    ensures
        r is Some <==> is_hex_string(s@),
        r matches Some(v) ==> v@ == hex_decoded(s@),
{
    match hex::decode(s) {
        Result::Ok(v) => Option::Some(v),
        Result::Err(_) => Option::None,
    }
}

/// The string value at a top-level key of a JSON document: `Some` exactly
/// when the document parses, is an object, and holds a string at that key.
pub uninterp spec fn json_str_field(doc: Seq<char>, key: Seq<char>) -> Option<Seq<char>>;

/// Relies on serde_json (`from_str`, `Value::get`, `Value::as_str`): reads
/// the string value at a top-level key of a JSON document. Parsing is
/// deterministic, so the result is a function of the document and key alone.
#[verifier::external_body]
fn read_str_field(doc: &str, key: &str) -> (r: Option<String>)
    ensures
        r is Some <==> json_str_field(doc@, key@) is Some,
        r matches Some(s) ==> json_str_field(doc@, key@) == Option::Some(s@),
{
    match serde_json::from_str::<serde_json::Value>(doc) {
        Result::Ok(v) => match v.get(key) {
            Option::Some(f) => match f.as_str() {
                Option::Some(s) => Option::Some(s.to_string()),
                Option::None => Option::None,
            },
            Option::None => Option::None,
        },
        Result::Err(_) => Option::None,
    }
}

/// The artifact bundle, parsed and decoded.
///
/// `bytes_hex` keeps the raw hex text of the payload: the fixture uses the
/// same text as the sequencer and aggregator address strings of the
/// final-proof public inputs.
pub struct FixtureBundle {
    pub bytes_hex: String,
    pub bytes: Vec<u8>,
    pub root: Vec<u8>,
    pub proof: String,
    pub new_acc_input_hash: Vec<u8>,
    pub new_local_exit_root: Vec<u8>,
    pub recursive_proof_1: String,
    pub recursive_proof_2: String,
}

/// Why the bundle document was rejected.
#[derive(Debug, PartialEq, Eq, Structural)]
pub enum FixtureError {
    /// Some required top-level string field is absent.
    MissingField,
    /// All fields are present but one of the hex fields does not decode.
    InvalidHex,
}

/// Every required top-level string field is present in the document.
pub open spec fn doc_has_fields(doc: Seq<char>) -> bool {
    &&& json_str_field(doc, "bytes"@) is Some
    &&& json_str_field(doc, "root"@) is Some
    &&& json_str_field(doc, "proof"@) is Some
    &&& json_str_field(doc, "new_acc_input_hash"@) is Some
    &&& json_str_field(doc, "new_local_exit_root"@) is Some
    &&& json_str_field(doc, "recursive_proof_1"@) is Some
    &&& json_str_field(doc, "recursive_proof_2"@) is Some
}

/// Every hex-carrying field of the document decodes.
pub open spec fn doc_hex_ok(doc: Seq<char>) -> bool
    recommends
        doc_has_fields(doc),
{
    &&& is_hex_string(json_str_field(doc, "bytes"@).unwrap())
    &&& is_hex_string(json_str_field(doc, "root"@).unwrap())
    &&& is_hex_string(json_str_field(doc, "new_acc_input_hash"@).unwrap())
    &&& is_hex_string(json_str_field(doc, "new_local_exit_root"@).unwrap())
}

/// The bundle holds exactly the fields of the document, hex fields decoded.
pub open spec fn bundle_matches_doc(b: FixtureBundle, doc: Seq<char>) -> bool {
    &&& b.bytes_hex@ == json_str_field(doc, "bytes"@).unwrap()
    &&& b.bytes@ == hex_decoded(json_str_field(doc, "bytes"@).unwrap())
    &&& b.root@ == hex_decoded(json_str_field(doc, "root"@).unwrap())
    &&& b.proof@ == json_str_field(doc, "proof"@).unwrap()
    &&& b.new_acc_input_hash@ == hex_decoded(json_str_field(doc, "new_acc_input_hash"@).unwrap())
    &&& b.new_local_exit_root@ == hex_decoded(json_str_field(doc, "new_local_exit_root"@).unwrap())
    &&& b.recursive_proof_1@ == json_str_field(doc, "recursive_proof_1"@).unwrap()
    &&& b.recursive_proof_2@ == json_str_field(doc, "recursive_proof_2"@).unwrap()
}

impl FixtureBundle {
    /// Parse the bundle from its JSON document.
    ///
    /// Succeeds exactly when every required field is present and every hex
    /// field decodes; the error says which of the two checks failed.
    pub fn parse(doc: &str) -> (r: Result<FixtureBundle, FixtureError>)
        ensures
            r is Ok <==> doc_has_fields(doc@) && doc_hex_ok(doc@),
            r matches Ok(b) ==> bundle_matches_doc(b, doc@),
            r matches Err(e) && e is MissingField <==> !doc_has_fields(doc@),
            r matches Err(e) && e is InvalidHex <==> doc_has_fields(doc@) && !doc_hex_ok(doc@),
    {
        let bytes_hex = match read_str_field(doc, "bytes") {
            Option::Some(s) => s,
            Option::None => {
                return Result::Err(FixtureError::MissingField);
            },
        };
        let root_hex = match read_str_field(doc, "root") {
            Option::Some(s) => s,
            Option::None => {
                return Result::Err(FixtureError::MissingField);
            },
        };
        let proof = match read_str_field(doc, "proof") {
            Option::Some(s) => s,
            Option::None => {
                return Result::Err(FixtureError::MissingField);
            },
        };
        let new_acc_hex = match read_str_field(doc, "new_acc_input_hash") {
            Option::Some(s) => s,
            Option::None => {
                return Result::Err(FixtureError::MissingField);
            },
        };
        let new_ler_hex = match read_str_field(doc, "new_local_exit_root") {
            Option::Some(s) => s,
            Option::None => {
                return Result::Err(FixtureError::MissingField);
            },
        };
        let recursive_proof_1 = match read_str_field(doc, "recursive_proof_1") {
            Option::Some(s) => s,
            Option::None => {
                return Result::Err(FixtureError::MissingField);
            },
        };
        let recursive_proof_2 = match read_str_field(doc, "recursive_proof_2") {
            Option::Some(s) => s,
            Option::None => {
                return Result::Err(FixtureError::MissingField);
            },
        };
        let bytes = match hex_decode(bytes_hex.as_str()) {
            Option::Some(v) => v,
            Option::None => {
                return Result::Err(FixtureError::InvalidHex);
            },
        };
        let root = match hex_decode(root_hex.as_str()) {
            Option::Some(v) => v,
            Option::None => {
                return Result::Err(FixtureError::InvalidHex);
            },
        };
        let new_acc_input_hash = match hex_decode(new_acc_hex.as_str()) {
            Option::Some(v) => v,
            Option::None => {
                return Result::Err(FixtureError::InvalidHex);
            },
        };
        let new_local_exit_root = match hex_decode(new_ler_hex.as_str()) {
            Option::Some(v) => v,
            Option::None => {
                return Result::Err(FixtureError::InvalidHex);
            },
        };
        Result::Ok(FixtureBundle {
            bytes_hex,
            bytes,
            root,
            proof,
            new_acc_input_hash,
            new_local_exit_root,
            recursive_proof_1,
            recursive_proof_2,
        })
    }
}

} // verus!
