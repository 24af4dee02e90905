use sp1_prover::ids::get_current_time;
use sp1_prover::ids::get_uuid;

#[test]
fn generated_ids_are_37_alphanumeric_chars() {
    let id = get_uuid();
    assert_eq!(id.len(), 37);
    assert!(id.chars().all(|c| c.is_ascii_alphanumeric()));
}

#[test]
fn generated_ids_differ_between_calls() {
    assert_ne!(get_uuid(), get_uuid());
}

#[test]
fn current_time_is_after_some_fixed_moment() {
    // Any sane clock reads far past 2020; the generator never fails or blocks.
    assert!(get_current_time() > 1_577_836_800);
}
