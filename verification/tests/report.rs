use stack_report::format_remaining_stack;
use stack_report::get_remaining_stack;

#[test]
fn formats_typical_value() {
    assert_eq!(format_remaining_stack(Some(131072)), "remaining stack: 131072");
}

#[test]
fn formats_zero() {
    assert_eq!(format_remaining_stack(Some(0)), "remaining stack: 0");
}

#[test]
fn formats_failure_as_fallback() {
    assert_eq!(format_remaining_stack(None), "failed to get remaining stack");
}

#[test]
fn formats_single_digit() {
    assert_eq!(format_remaining_stack(Some(7)), "remaining stack: 7");
}

#[test]
fn formats_largest_value() {
    let expected = format!("remaining stack: {}", usize::MAX);
    assert_eq!(format_remaining_stack(Some(usize::MAX)), expected);
}

#[test]
fn formats_round_number() {
    assert_eq!(format_remaining_stack(Some(1000000)), "remaining stack: 1000000");
}

#[test]
fn live_query_yields_well_formed_report() {
    let r = get_remaining_stack();
    if r != "failed to get remaining stack" {
        let rest = r
            .strip_prefix("remaining stack: ")
            .expect("report must carry the fixed prefix");
        assert!(!rest.is_empty());
        assert!(rest.chars().all(|c| c.is_ascii_digit()));
        if rest.len() > 1 {
            assert!(!rest.starts_with('0'));
        }
    }
}

#[test]
fn live_query_matches_direct_measurement_shape() {
    let direct = stacker::remaining_stack();
    let r = get_remaining_stack();
    match direct {
        Some(_) => assert!(r.starts_with("remaining stack: ")),
        None => assert_eq!(r, "failed to get remaining stack"),
    }
}
