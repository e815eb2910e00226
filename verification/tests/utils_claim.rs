use rewards_program::utils::resolve_claim_amount;

#[test]
fn test_resolve_claim_amount_claim_all() {
    let result = resolve_claim_amount(0, 1000);
    assert_eq!(result.unwrap(), 1000);
}

#[test]
fn test_resolve_claim_amount_partial() {
    let result = resolve_claim_amount(500, 1000);
    assert_eq!(result.unwrap(), 500);
}

#[test]
fn test_resolve_claim_amount_exact() {
    let result = resolve_claim_amount(1000, 1000);
    assert_eq!(result.unwrap(), 1000);
}

#[test]
fn test_resolve_claim_amount_exceeds() {
    let result = resolve_claim_amount(1500, 1000);
    assert!(result.is_err());
}

#[test]
fn test_resolve_claim_amount_nothing_to_claim() {
    let result = resolve_claim_amount(0, 0);
    assert!(result.is_err());
}

#[test]
fn test_resolve_claim_amount_nothing_to_claim_with_request() {
    let result = resolve_claim_amount(500, 0);
    assert!(result.is_err());
}
