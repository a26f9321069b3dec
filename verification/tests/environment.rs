use invarch_ink_environment::{Extension, ExtensionError};

#[test]
fn status_code_zero_is_success() {
    assert_eq!(ExtensionError::from_status_code(0), Ok(()));
}

#[test]
fn status_code_one_is_the_randomness_failure() {
    assert_eq!(
        ExtensionError::from_status_code(1),
        Err(ExtensionError::FailGetRandomSource)
    );
}

#[test]
fn other_status_codes_are_surfaced_as_unknown() {
    assert_eq!(
        ExtensionError::from_status_code(2),
        Err(ExtensionError::UnknownStatusCode)
    );
    assert_eq!(
        ExtensionError::from_status_code(u32::MAX),
        Err(ExtensionError::UnknownStatusCode)
    );
}

#[test]
fn record_steps_pass_every_error_through_unchanged() {
    let mut contract = Extension::new();

    let e = ExtensionError::MaxMetadataExceeded;
    assert_eq!(contract.record_ipf_minted(Err(e)), Err(e));
    assert_eq!(contract.record_ips_created(Err(e)), Err(e));
    assert_eq!(contract.record_ipf_burned(1, Err(e)), Err(e));
    assert_eq!(contract.record_ips_appended(1, Err(e)), Err(e));
    assert_eq!(contract.record_ips_removed(1, Err(e)), Err(e));
    assert_eq!(contract.record_replica_allowed(1, Err(e)), Err(e));
    assert_eq!(contract.record_replica_disallowed(1, Err(e)), Err(e));
    assert_eq!(contract.record_replica_created(1, Err(e)), Err(e));
    assert_eq!(contract.record_ipt_minted([0u8; 32], 9, Err(e)), Err(e));
    assert_eq!(contract.get_ipf(), Vec::<u64>::new());
    assert_eq!(contract.get_ips(), Vec::<u64>::new());
}

#[test]
fn record_replica_created_pairs_original_with_new() {
    let mut contract = Extension::new();
    let ev = contract.record_replica_created(3, Ok(8)).unwrap();
    assert_eq!(ev.original, 3);
    assert_eq!(ev.new, 8);
}
