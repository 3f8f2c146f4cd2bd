use joker::generate_hash;
use joker::solve;

#[test]
fn empty_requirement_is_met_by_first_draw() {
    let r = solve("payload", "", 1);
    let c = r.expect("an empty requirement is always met at once");
    assert_eq!(c.nonce.len(), 48);
    assert_eq!(c.digest, generate_hash(&format!("payload{}", c.nonce)));
}

#[test]
fn single_hex_digit_requirement_is_solved() {
    // With a one-character hex requirement a match takes about 16 draws on
    // average, so this budget leaves failure out of practical reach.
    let r = solve("abc", "0", 1_000_000);
    let c = r.expect("a one-digit requirement is found well within the budget");
    assert!(c.digest.starts_with('0'));
    assert_eq!(c.digest, generate_hash(&format!("abc{}", c.nonce)));
    assert_eq!(c.nonce.len(), 48);
    assert!(c.nonce.chars().all(|ch| ch.is_ascii_alphanumeric()));
}

#[test]
fn single_worker_budget_still_terminates() {
    // One sequential searcher is exactly what the library's search runs;
    // a bounded budget makes termination structural.
    let r = solve("abc", "a", 1_000_000);
    let c = r.expect("a one-digit requirement is found well within the budget");
    assert!(c.digest.starts_with('a'));
}

#[test]
fn impossible_requirement_exhausts_budget() {
    // The digest is hexadecimal, so a requirement outside the hex alphabet
    // can never be met and the budget runs out.
    let r = solve("abc", "zz", 50);
    assert!(r.is_none());
}
