use arch_advisor::engine::scale_scores;
use arch_advisor::model::Weights;
use arch_advisor::weights::{default_weights, parse_weight};

#[test]
fn non_numeric_token_falls_back_to_default() {
    assert_eq!(parse_weight("abc", 5), 5);
    assert_eq!(parse_weight("3x", 4), 4);
    assert_eq!(parse_weight("", 3), 3);
    assert_eq!(parse_weight(" 7", 2), 2);
}

#[test]
fn numeric_token_parses() {
    assert_eq!(parse_weight("7", 0), 7);
    assert_eq!(parse_weight("0", 9), 0);
    assert_eq!(parse_weight("+12", 9), 12);
    assert_eq!(parse_weight("0042", 9), 42);
}

#[test]
fn out_of_range_token_falls_back_to_default() {
    assert_eq!(parse_weight("2147483647", 0), 2147483647);
    assert_eq!(parse_weight("2147483648", 4), 4);
    assert_eq!(parse_weight("99999999999999999999", 4), 4);
    // the model takes weights non-negative; a signed token is no weight
    assert_eq!(parse_weight("-3", 2), 2);
}

#[test]
fn documented_defaults() {
    let w = default_weights();
    assert_eq!(w.sla_w, 5);
    assert_eq!(w.budget_w, 3);
    assert_eq!(w.volume_w, 2);
    assert_eq!(w.workload_w, 1);
    assert_eq!(w.observability_w, 4);
}

#[test]
fn scaling_truncates_toward_zero() {
    // floor(95 * 13 / 10) = floor(123.5) = 123
    let scaled = scale_scores(
        &vec![("x".to_string(), 95)],
        &Weights::new(5, 3, 2, 1, 2),
    );
    assert_eq!(scaled, vec![("x".to_string(), 123)]);
}

#[test]
fn scaling_never_decreases_with_mass() {
    // monotonicity: a larger weight mass never lowers a rescaled score
    let base = vec![("x".to_string(), 90)];
    let mut last = 0;
    for extra in 0..20 {
        let w = Weights::new(5, 3, 2, 1, extra);
        let scaled = scale_scores(&base, &w);
        assert!(scaled[0].1 >= last);
        last = scaled[0].1;
    }
}
