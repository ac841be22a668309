use arch_advisor::advisor::{recommend_single, run_strict};
use arch_advisor::model::{ArchProfile, Facts, Weights};
use arch_advisor::rank::rank;
use arch_advisor::scorer::similarity_score;

fn run_strict_entries(
    volume: &str,
    workload: &str,
    sla: &str,
    budget: &str,
    observability: &str,
    sla_w: i32,
    budget_w: i32,
    volume_w: i32,
    workload_w: i32,
    observability_w: i32,
) -> Vec<(String, i32)> {
    let facts = Facts::new(volume, workload, sla, budget, observability);
    let weights = Weights::new(sla_w, budget_w, volume_w, workload_w, observability_w);
    let (recs, _expls) = run_strict(&facts, &weights);
    recs
}

fn run_multi_catalog(
    volume: &str,
    workload: &str,
    sla: &str,
    budget: &str,
    observability: &str,
    sla_w: i32,
    budget_w: i32,
    volume_w: i32,
    workload_w: i32,
    observability_w: i32,
) -> Vec<(String, i32)> {
    let profiles = vec![
        ArchProfile::new("Lakehouse", "large", "mixed", "high", "high", "high", 95),
        ArchProfile::new("Kafka/Flink", "any", "streaming", "high", "any", "high", 90),
        ArchProfile::new("Cloud-native Monitoring", "any", "any", "any", "high", "medium", 75),
        ArchProfile::new("ETL Pipelines", "any", "batch", "low", "low", "low", 50),
    ];
    let user = (volume, workload, sla, budget, observability);
    let weights = (sla_w, budget_w, volume_w, workload_w, observability_w);
    let mut scored: Vec<(String, i32)> = Vec::new();
    for p in &profiles {
        scored.push((p.name.clone(), similarity_score(user, weights, p)));
    }
    rank(&scored)
}

#[test]
fn test_strict_mode_lakehouse() {
    let recs = run_strict_entries("large", "mixed", "high", "high", "high", 5, 3, 2, 1, 4);
    assert_eq!(recs[0].0, "Lakehouse");
    assert!(recs[0].1 > 90);
}

#[test]
fn test_strict_mode_kafka() {
    let recs = run_strict_entries("small", "streaming", "high", "low", "high", 5, 3, 2, 1, 4);
    assert_eq!(recs[0].0, "Kafka/Flink");
}

#[test]
fn test_multi_mode_ranking() {
    let recs = run_multi_catalog("large", "mixed", "low", "high", "medium", 5, 2, 1, 1, 3);
    // Cloud-native Monitoring should appear, but Lakehouse also gets partial score
    assert!(recs
        .iter()
        .any(|(name, _)| name.contains("Cloud-native Monitoring")));
    assert!(recs.iter().any(|(name, _)| name.contains("Lakehouse")));
    // Ensure multiple recommendations are returned
    assert!(recs.len() > 1);
}

#[test]
fn test_multi_mode_ordering() {
    let recs = run_multi_catalog("batch", "batch", "low", "low", "low", 5, 2, 1, 1, 3);
    // ETL Pipelines should rank higher than Lakehouse in this scenario
    let etl_score = recs.iter().find(|(n, _)| n == "ETL Pipelines").unwrap().1;
    let lakehouse_score = recs.iter().find(|(n, _)| n == "Lakehouse").unwrap().1;
    assert!(etl_score >= lakehouse_score);
}

#[test]
fn strict_lakehouse_exact_score() {
    // base 95, weight mass 5+3+2+1+4 = 15: floor(95 * 15 / 10) = 142
    let recs = run_strict_entries("large", "mixed", "high", "high", "high", 5, 3, 2, 1, 4);
    assert_eq!(recs[0], ("Lakehouse".to_string(), 142));
    assert!(recs.contains(&("Data Mesh".to_string(), 135)));
}

#[test]
fn strict_kafka_exact_score_and_top() {
    // base 90, weight mass 15: floor(90 * 15 / 10) = 135, ranked first
    let recs = run_strict_entries("small", "streaming", "high", "low", "high", 5, 3, 2, 1, 4);
    assert_eq!(recs[0], ("Kafka/Flink".to_string(), 135));
}

#[test]
fn strict_output_is_descending() {
    let recs = run_strict_entries("large", "mixed", "high", "high", "high", 5, 3, 2, 1, 4);
    for pair in recs.windows(2) {
        assert!(pair[0].1 >= pair[1].1);
    }
}

#[test]
fn strict_explanations_cover_all_fired_rules() {
    let facts = Facts::new("small", "streaming", "high", "low", "high");
    let weights = Weights::new(5, 3, 2, 1, 4);
    let (recs, expls) = run_strict(&facts, &weights);
    // fired: Kafka/Flink, Monitoring Stack, Distributed Tracing, Alerting, FinOps
    assert_eq!(recs.len(), 5);
    assert_eq!(expls.len(), 5);
    assert!(expls
        .iter()
        .any(|e| e == "Kafka/Flink chosen for real-time streaming with strict SLA."));
    assert!(expls
        .iter()
        .any(|e| e == "FinOps dashboards chosen for cost control and resource optimization."));
}

#[test]
fn antecedent_match_is_exact() {
    // (large, batch, low, low, *) fires Hadoop/Spark; flipping the referenced
    // budget fact to "high" un-fires it, while unreferenced rules are unmoved.
    let fired = run_strict_entries("large", "batch", "low", "low", "low", 5, 3, 2, 1, 4);
    assert!(fired.iter().any(|(n, _)| n == "Hadoop/Spark"));
    let unfired = run_strict_entries("large", "batch", "low", "high", "low", 5, 3, 2, 1, 4);
    assert!(!unfired.iter().any(|(n, _)| n == "Hadoop/Spark"));
}

#[test]
fn unknown_category_fires_nothing() {
    // a value outside the domain is not rejected; it simply matches no rule
    let facts = Facts::new("huge", "interactive", "low", "high", "low");
    let weights = Weights::new(5, 3, 2, 1, 4);
    let (recs, expls) = run_strict(&facts, &weights);
    assert!(recs.is_empty());
    assert!(expls.is_empty());
}

#[test]
fn recommend_single_returns_top_and_all_explanations() {
    let facts = Facts::new("large", "mixed", "high", "high", "high");
    let weights = Weights::new(5, 3, 2, 1, 4);
    let (top, expls) = recommend_single(&facts, &weights);
    assert_eq!(top, Some(("Lakehouse".to_string(), 142)));
    assert!(expls.len() > 1);
}

#[test]
fn recommend_single_empty_when_nothing_fires() {
    let facts = Facts::new("small", "batch", "low", "high", "low");
    let weights = Weights::new(5, 3, 2, 1, 4);
    let (top, expls) = recommend_single(&facts, &weights);
    assert_eq!(top, None);
    assert!(expls.is_empty());
}

#[test]
fn several_rules_fire_together() {
    // (large, mixed, high, *, *) satisfies three antecedents at once; every
    // firing appears in the output, none is merged away
    let recs = run_strict_entries("large", "mixed", "high", "low", "low", 5, 3, 2, 1, 4);
    assert!(recs.iter().any(|(n, _)| n == "Data Mesh"));
    assert!(recs.iter().any(|(n, _)| n == "Hybrid Cloud"));
    assert!(recs.iter().any(|(n, _)| n == "Governance Layer (Collibra/Alation)"));
}

#[test]
fn rank_is_stable_on_ties() {
    let entries = vec![
        ("first".to_string(), 5),
        ("top".to_string(), 7),
        ("second".to_string(), 5),
    ];
    let ranked = rank(&entries);
    assert_eq!(
        ranked,
        vec![
            ("top".to_string(), 7),
            ("first".to_string(), 5),
            ("second".to_string(), 5),
        ]
    );
}
