use memstore::util::{cold_err, likely, unlikely, Unwrappable};

#[test]
fn branch_hints_are_identities() {
    assert!(likely(true));
    assert!(!likely(false));
    assert!(unlikely(true));
    assert!(!unlikely(false));
    assert_eq!(cold_err(41), 41);
    assert_eq!(cold_err("e"), "e");
}

#[test]
fn unwrappable_returns_stored_values() {
    let some: Option<u32> = Some(5);
    assert_eq!(some.unsafe_unwrap(), 5);
    let ok: Result<u32, &str> = Ok(7);
    assert_eq!(ok.unsafe_unwrap(), 7);
}
