use arch_advisor::advisor::run_multi;
use arch_advisor::model::{ArchProfile, Facts, Weights};
use arch_advisor::scorer::similarity_score;
use arch_advisor::store::profiles;

#[test]
fn multi_mode_scores_whole_catalog() {
    // totality: exactly one entry per catalog profile, no filtering
    let facts = Facts::new("batch", "batch", "low", "low", "low");
    let weights = Weights::new(5, 2, 1, 1, 3);
    let recs = run_multi(&facts, &weights);
    assert_eq!(recs.len(), profiles().len());
    assert_eq!(recs.len(), 18);
}

#[test]
fn multi_mode_is_descending() {
    let facts = Facts::new("large", "mixed", "high", "high", "high");
    let weights = Weights::new(5, 3, 2, 1, 4);
    let recs = run_multi(&facts, &weights);
    for pair in recs.windows(2) {
        assert!(pair[0].1 >= pair[1].1);
    }
}

#[test]
fn multi_mode_exact_arithmetic() {
    // volume "batch" matches no profile's volume field; ETL Pipelines wins
    // its exact matches: 50 + 1*5 + 1*10 + 5*10 + 2*10 + 3*10 = 165, while
    // Lakehouse keeps only its base 95
    let facts = Facts::new("batch", "batch", "low", "low", "low");
    let weights = Weights::new(5, 2, 1, 1, 3);
    let recs = run_multi(&facts, &weights);
    let etl = recs.iter().find(|(n, _)| n == "ETL Pipelines").unwrap().1;
    let lakehouse = recs.iter().find(|(n, _)| n == "Lakehouse").unwrap().1;
    assert_eq!(etl, 165);
    assert_eq!(lakehouse, 95);
    assert!(etl >= lakehouse);
}

#[test]
fn wildcard_contribution_ignores_the_fact() {
    // a wildcard attribute always contributes weight * 5
    let p = ArchProfile::new("probe", "any", "any", "any", "any", "any", 0);
    let weights = (0, 0, 3, 0, 0);  // volume weight 3, all others 0
    let a = similarity_score(("small", "batch", "low", "low", "low"), weights, &p);
    let b = similarity_score(("large", "mixed", "high", "high", "high"), weights, &p);
    assert_eq!(a, 15);
    assert_eq!(b, 15);
}

#[test]
fn concrete_contribution_is_all_or_nothing() {
    // a concrete expected value contributes weight * 10 on a match, 0 else
    let p = ArchProfile::new("probe", "large", "any", "any", "any", "any", 0);
    let weights = (0, 0, 3, 0, 0);
    let matched = similarity_score(("large", "batch", "low", "low", "low"), weights, &p);
    let mismatched = similarity_score(("small", "batch", "low", "low", "low"), weights, &p);
    assert_eq!(matched, 30);
    assert_eq!(mismatched, 0);
}

#[test]
fn similarity_adds_base_and_all_contributions() {
    let p = ArchProfile::new("probe", "large", "mixed", "high", "any", "low", 40);
    // order: (sla_w, budget_w, volume_w, workload_w, observability_w)
    let weights = (5, 3, 2, 1, 4);
    // 40 + 2*10 (volume match) + 1*10 (workload match) + 5*10 (sla match)
    //    + 3*5 (budget wildcard) + 0 (observability mismatch) = 135
    let score = similarity_score(("large", "mixed", "high", "high", "high"), weights, &p);
    assert_eq!(score, 135);
}

#[test]
fn multi_mode_monitoring_tops_on_observability() {
    let facts = Facts::new("small", "streaming", "low", "high", "high");
    let weights = Weights::new(5, 3, 2, 1, 4);
    let recs = run_multi(&facts, &weights);
    // Distributed Tracing: 88 + 2*5 + 1*10 + 5*5 + 3*5 + 4*10 = 188
    let tracing = recs
        .iter()
        .find(|(n, _)| n == "Distributed Tracing (OpenTelemetry/Jaeger)")
        .unwrap()
        .1;
    assert_eq!(tracing, 188);
    assert_eq!(recs[0].1, 188);
}
