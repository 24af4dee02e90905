use sp1_prover::fixture::FixtureBundle;
use sp1_prover::fixture::FixtureError;

fn doc_with(bytes: &str, root: &str) -> String {
    let mut doc = String::new();
    doc.push_str("{\"bytes\":\"");
    doc.push_str(bytes);
    doc.push_str("\",\"root\":\"");
    doc.push_str(root);
    doc.push_str("\",\"proof\":\"p\",");
    doc.push_str("\"new_acc_input_hash\":\"0e\",");
    doc.push_str("\"new_local_exit_root\":\"0f\",");
    doc.push_str("\"recursive_proof_1\":\"r1\",");
    doc.push_str("\"recursive_proof_2\":\"r2\"}");
    doc
}

#[test]
fn parse_decodes_every_field() {
    let b = FixtureBundle::parse(&doc_with("00ff10Ab", "deadbeef")).expect("document must parse");
    assert_eq!(b.bytes_hex, "00ff10Ab");
    assert_eq!(b.bytes, vec![0x00, 0xff, 0x10, 0xab]);
    assert_eq!(b.root, vec![0xde, 0xad, 0xbe, 0xef]);
    assert_eq!(b.proof, "p");
    assert_eq!(b.new_acc_input_hash, vec![0x0e]);
    assert_eq!(b.new_local_exit_root, vec![0x0f]);
    assert_eq!(b.recursive_proof_1, "r1");
    assert_eq!(b.recursive_proof_2, "r2");
}

#[test]
fn parse_accepts_empty_hex_fields() {
    let b = FixtureBundle::parse(&doc_with("", "")).expect("document must parse");
    assert_eq!(b.bytes, Vec::<u8>::new());
    assert_eq!(b.root, Vec::<u8>::new());
}

#[test]
fn missing_field_is_rejected() {
    let mut doc = String::new();
    doc.push_str("{\"bytes\":\"00\",\"proof\":\"p\",");
    doc.push_str("\"new_acc_input_hash\":\"0e\",");
    doc.push_str("\"new_local_exit_root\":\"0f\",");
    doc.push_str("\"recursive_proof_1\":\"r1\",");
    doc.push_str("\"recursive_proof_2\":\"r2\"}");
    match FixtureBundle::parse(&doc) {
        Err(e) => assert_eq!(e, FixtureError::MissingField),
        Ok(_) => panic!("document without the root field must be rejected"),
    }
}

#[test]
fn non_string_field_is_rejected_as_missing() {
    let doc = doc_with("00", "11").replace("\"proof\":\"p\"", "\"proof\":7");
    match FixtureBundle::parse(&doc) {
        Err(e) => assert_eq!(e, FixtureError::MissingField),
        Ok(_) => panic!("a non-string field must count as missing"),
    }
}

#[test]
fn unparseable_document_is_rejected() {
    match FixtureBundle::parse("this is not json") {
        Err(e) => assert_eq!(e, FixtureError::MissingField),
        Ok(_) => panic!("an unparseable document must be rejected"),
    }
}

#[test]
fn non_hex_digits_are_rejected() {
    match FixtureBundle::parse(&doc_with("zz", "00")) {
        Err(e) => assert_eq!(e, FixtureError::InvalidHex),
        Ok(_) => panic!("non-hex digits must be rejected"),
    }
}

#[test]
fn odd_length_hex_is_rejected() {
    match FixtureBundle::parse(&doc_with("00", "abc")) {
        Err(e) => assert_eq!(e, FixtureError::InvalidHex),
        Ok(_) => panic!("odd-length hex must be rejected"),
    }
}
