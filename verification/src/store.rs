//! The static rule store and profile catalog, as declarative tables: a
//! spec-level table pins the exact contents, and an executable builder
//! produces the matching runtime value once per query.

use vstd::prelude::*;

use crate::model::{ArchProfile, ProfileView, Rule, RuleView};

verus! {

/// The rule store: every production rule, in declaration order. This order is
/// the pre-sort order of strict-mode output, so stable-sort tie-breaking is
/// reproducible.
pub open spec fn spec_rules() -> Seq<RuleView> {
    seq![
        RuleView {
            name: "Hadoop/Spark"@,
            base: 60,
            explanation: "Hadoop/Spark chosen for large batch data, low SLA, limited budget."@,
            volume: Option::Some("large"@),
            workload: Option::Some("batch"@),
            sla: Option::Some("low"@),
            budget: Option::Some("low"@),
            observability: Option::None,
        },
        RuleView {
            name: "Data Warehouse"@,
            base: 70,
            explanation: "Data Warehouse chosen for medium batch workloads with high SLA."@,
            volume: Option::Some("medium"@),
            workload: Option::Some("batch"@),
            sla: Option::Some("high"@),
            budget: Option::None,
            observability: Option::None,
        },
        RuleView {
            name: "Kafka/Flink"@,
            base: 90,
            explanation: "Kafka/Flink chosen for real-time streaming with strict SLA."@,
            volume: Option::None,
            workload: Option::Some("streaming"@),
            sla: Option::Some("high"@),
            budget: Option::None,
            observability: Option::None,
        },
        RuleView {
            name: "Lakehouse"@,
            base: 95,
            explanation: "Lakehouse chosen for large mixed workloads, high SLA, sufficient budget."@,
            volume: Option::Some("large"@),
            workload: Option::Some("mixed"@),
            sla: Option::Some("high"@),
            budget: Option::Some("high"@),
            observability: Option::None,
        },
        RuleView {
            name: "Cloud DW (BigQuery/Snowflake)"@,
            base: 85,
            explanation: "Cloud DW chosen for medium mixed workloads, high SLA, high budget."@,
            volume: Option::Some("medium"@),
            workload: Option::Some("mixed"@),
            sla: Option::Some("high"@),
            budget: Option::Some("high"@),
            observability: Option::None,
        },
        RuleView {
            name: "Data Mesh"@,
            base: 90,
            explanation: "Data Mesh chosen for large distributed domains, mixed workloads, decentralized ownership."@,
            volume: Option::Some("large"@),
            workload: Option::Some("mixed"@),
            sla: Option::Some("high"@),
            budget: Option::None,
            observability: Option::None,
        },
        RuleView {
            name: "ETL Pipelines"@,
            base: 50,
            explanation: "ETL Pipelines chosen for batch workloads, relaxed SLA, limited budget."@,
            volume: Option::None,
            workload: Option::Some("batch"@),
            sla: Option::Some("low"@),
            budget: Option::Some("low"@),
            observability: Option::None,
        },
        RuleView {
            name: "ML Platform (Kubeflow/MLflow)"@,
            base: 88,
            explanation: "ML Platform chosen for advanced analytics, ML, sufficient budget."@,
            volume: Option::None,
            workload: Option::Some("mixed"@),
            sla: Option::Some("high"@),
            budget: Option::Some("high"@),
            observability: Option::None,
        },
        RuleView {
            name: "Hybrid Cloud"@,
            base: 80,
            explanation: "Hybrid Cloud chosen for large mixed workloads, strict SLA, flexibility across on-prem/cloud."@,
            volume: Option::Some("large"@),
            workload: Option::Some("mixed"@),
            sla: Option::Some("high"@),
            budget: Option::None,
            observability: Option::None,
        },
        RuleView {
            name: "Data Lake (S3/ADLS)"@,
            base: 75,
            explanation: "Data Lake chosen for large-scale storage, batch workloads, high SLA, high budget."@,
            volume: Option::Some("large"@),
            workload: Option::Some("batch"@),
            sla: Option::Some("high"@),
            budget: Option::Some("high"@),
            observability: Option::None,
        },
        RuleView {
            name: "Orchestration (Airflow/Prefect)"@,
            base: 65,
            explanation: "Orchestration chosen for managing complex batch pipelines with SLA guarantees."@,
            volume: Option::None,
            workload: Option::Some("batch"@),
            sla: Option::Some("high"@),
            budget: Option::None,
            observability: Option::None,
        },
        RuleView {
            name: "Governance Layer (Collibra/Alation)"@,
            base: 70,
            explanation: "Governance chosen for large datasets with strict SLA and compliance needs."@,
            volume: Option::Some("large"@),
            workload: Option::None,
            sla: Option::Some("high"@),
            budget: Option::None,
            observability: Option::None,
        },
        RuleView {
            name: "Monitoring Stack (Prometheus/Grafana)"@,
            base: 85,
            explanation: "Monitoring stack chosen for deep metrics, dashboards, and SLA compliance."@,
            volume: Option::None,
            workload: Option::None,
            sla: Option::None,
            budget: Option::None,
            observability: Option::Some("high"@),
        },
        RuleView {
            name: "Distributed Tracing (OpenTelemetry/Jaeger)"@,
            base: 88,
            explanation: "Tracing chosen for end-to-end visibility across streaming pipelines."@,
            volume: Option::None,
            workload: Option::Some("streaming"@),
            sla: Option::None,
            budget: Option::None,
            observability: Option::Some("high"@),
        },
        RuleView {
            name: "Data Lineage Tools (OpenLineage/Marquez)"@,
            base: 80,
            explanation: "Lineage tools chosen for compliance and auditability in large-scale pipelines."@,
            volume: Option::Some("large"@),
            workload: Option::None,
            sla: Option::None,
            budget: Option::None,
            observability: Option::Some("high"@),
        },
        RuleView {
            name: "Cloud-native Monitoring (CloudWatch/Stackdriver/Azure Monitor)"@,
            base: 75,
            explanation: "Cloud-native monitoring chosen for integrated observability in cloud ecosystems."@,
            volume: Option::None,
            workload: Option::None,
            sla: Option::None,
            budget: Option::Some("high"@),
            observability: Option::Some("medium"@),
        },
        RuleView {
            name: "ELK Stack (Elasticsearch/Logstash/Kibana)"@,
            base: 70,
            explanation: "ELK stack chosen for centralized logging with limited budget."@,
            volume: Option::None,
            workload: Option::None,
            sla: Option::None,
            budget: Option::Some("low"@),
            observability: Option::Some("medium"@),
        },
        RuleView {
            name: "Alerting & Incident Response (PagerDuty/OpsGenie)"@,
            base: 90,
            explanation: "Alerting chosen for automated incident response and SLA adherence."@,
            volume: Option::None,
            workload: Option::None,
            sla: Option::Some("high"@),
            budget: Option::None,
            observability: Option::Some("high"@),
        },
        RuleView {
            name: "FinOps Dashboards"@,
            base: 78,
            explanation: "FinOps dashboards chosen for cost control and resource optimization."@,
            volume: Option::None,
            workload: Option::None,
            sla: Option::None,
            budget: Option::Some("low"@),
            observability: Option::Some("high"@),
        },
    ]
}

/// The profile catalog, in declaration order. This order is the pre-sort
/// order of multi-mode output.
pub open spec fn spec_profiles() -> Seq<ProfileView> {
    seq![
        ProfileView {
            name: "Lakehouse"@,
            volume: "large"@,
            workload: "mixed"@,
            sla: "high"@,
            budget: "high"@,
            observability: "high"@,
            base: 95,
        },
        ProfileView {
            name: "Kafka/Flink"@,
            volume: "any"@,
            workload: "streaming"@,
            sla: "high"@,
            budget: "any"@,
            observability: "high"@,
            base: 90,
        },
        ProfileView {
            name: "Cloud-native Monitoring (CloudWatch/Stackdriver/Azure Monitor)"@,
            volume: "any"@,
            workload: "any"@,
            sla: "any"@,
            budget: "high"@,
            observability: "medium"@,
            base: 75,
        },
        ProfileView {
            name: "Data Mesh"@,
            volume: "large"@,
            workload: "mixed"@,
            sla: "high"@,
            budget: "any"@,
            observability: "high"@,
            base: 90,
        },
        ProfileView {
            name: "ML Platform (Kubeflow/MLflow)"@,
            volume: "any"@,
            workload: "mixed"@,
            sla: "high"@,
            budget: "high"@,
            observability: "high"@,
            base: 88,
        },
        ProfileView {
            name: "Hybrid Cloud"@,
            volume: "large"@,
            workload: "mixed"@,
            sla: "high"@,
            budget: "any"@,
            observability: "high"@,
            base: 80,
        },
        ProfileView {
            name: "Data Lake (S3/ADLS)"@,
            volume: "large"@,
            workload: "batch"@,
            sla: "high"@,
            budget: "high"@,
            observability: "high"@,
            base: 75,
        },
        ProfileView {
            name: "Orchestration (Airflow/Prefect)"@,
            volume: "any"@,
            workload: "batch"@,
            sla: "high"@,
            budget: "any"@,
            observability: "medium"@,
            base: 65,
        },
        ProfileView {
            name: "Governance Layer (Collibra/Alation)"@,
            volume: "large"@,
            workload: "any"@,
            sla: "high"@,
            budget: "any"@,
            observability: "high"@,
            base: 70,
        },
        ProfileView {
            name: "Monitoring Stack (Prometheus/Grafana)"@,
            volume: "any"@,
            workload: "any"@,
            sla: "any"@,
            budget: "any"@,
            observability: "high"@,
            base: 85,
        },
        ProfileView {
            name: "Distributed Tracing (OpenTelemetry/Jaeger)"@,
            volume: "any"@,
            workload: "streaming"@,
            sla: "any"@,
            budget: "any"@,
            observability: "high"@,
            base: 88,
        },
        ProfileView {
            name: "Data Lineage Tools (OpenLineage/Marquez)"@,
            volume: "large"@,
            workload: "any"@,
            sla: "any"@,
            budget: "any"@,
            observability: "high"@,
            base: 80,
        },
        ProfileView {
            name: "ELK Stack (Elasticsearch/Logstash/Kibana)"@,
            volume: "any"@,
            workload: "any"@,
            sla: "any"@,
            budget: "low"@,
            observability: "medium"@,
            base: 70,
        },
        ProfileView {
            name: "Alerting & Incident Response (PagerDuty/OpsGenie)"@,
            volume: "any"@,
            workload: "any"@,
            sla: "high"@,
            budget: "any"@,
            observability: "high"@,
            base: 90,
        },
        ProfileView {
            name: "FinOps Dashboards"@,
            volume: "any"@,
            workload: "any"@,
            sla: "any"@,
            budget: "low"@,
            observability: "high"@,
            base: 78,
        },
        ProfileView {
            name: "Hadoop/Spark"@,
            volume: "large"@,
            workload: "batch"@,
            sla: "low"@,
            budget: "low"@,
            observability: "low"@,
            base: 60,
        },
        ProfileView {
            name: "Data Warehouse"@,
            volume: "medium"@,
            workload: "batch"@,
            sla: "high"@,
            budget: "any"@,
            observability: "medium"@,
            base: 70,
        },
        ProfileView {
            name: "ETL Pipelines"@,
            volume: "any"@,
            workload: "batch"@,
            sla: "low"@,
            budget: "low"@,
            observability: "low"@,
            base: 50,
        },
    ]
}

/// Every base score in the rule store lies between 50 and 95.
pub proof fn lemma_rule_bases_bounded()
    ensures
        forall|i: int| 0 <= i < spec_rules().len() ==> 50 <= (#[trigger] spec_rules()[i]).base <= 95,
{
    assert forall|i: int| 0 <= i < spec_rules().len() implies 50 <= (#[trigger] spec_rules()[i]).base
        <= 95 by {
        if i == 0 {
            assert(spec_rules()[0].base == 60);
        } else if i == 1 {
            assert(spec_rules()[1].base == 70);
        } else if i == 2 {
            assert(spec_rules()[2].base == 90);
        } else if i == 3 {
            assert(spec_rules()[3].base == 95);
        } else if i == 4 {
            assert(spec_rules()[4].base == 85);
        } else if i == 5 {
            assert(spec_rules()[5].base == 90);
        } else if i == 6 {
            assert(spec_rules()[6].base == 50);
        } else if i == 7 {
            assert(spec_rules()[7].base == 88);
        } else if i == 8 {
            assert(spec_rules()[8].base == 80);
        } else if i == 9 {
            assert(spec_rules()[9].base == 75);
        } else if i == 10 {
            assert(spec_rules()[10].base == 65);
        } else if i == 11 {
            assert(spec_rules()[11].base == 70);
        } else if i == 12 {
            assert(spec_rules()[12].base == 85);
        } else if i == 13 {
            assert(spec_rules()[13].base == 88);
        } else if i == 14 {
            assert(spec_rules()[14].base == 80);
        } else if i == 15 {
            assert(spec_rules()[15].base == 75);
        } else if i == 16 {
            assert(spec_rules()[16].base == 70);
        } else if i == 17 {
            assert(spec_rules()[17].base == 90);
        } else {
            assert(spec_rules()[18].base == 78);
        }
    }
}

/// Every base score in the profile catalog lies between 50 and 95.
pub proof fn lemma_profile_bases_bounded()
    ensures
        forall|i: int| 0 <= i < spec_profiles().len() ==> 50 <= (#[trigger] spec_profiles()[i]).base
            <= 95,
{
    assert forall|i: int| 0 <= i < spec_profiles().len() implies 50 <= (
    #[trigger] spec_profiles()[i]).base <= 95 by {
        if i == 0 {
            assert(spec_profiles()[0].base == 95);
        } else if i == 1 {
            assert(spec_profiles()[1].base == 90);
        } else if i == 2 {
            assert(spec_profiles()[2].base == 75);
        } else if i == 3 {
            assert(spec_profiles()[3].base == 90);
        } else if i == 4 {
            assert(spec_profiles()[4].base == 88);
        } else if i == 5 {
            assert(spec_profiles()[5].base == 80);
        } else if i == 6 {
            assert(spec_profiles()[6].base == 75);
        } else if i == 7 {
            assert(spec_profiles()[7].base == 65);
        } else if i == 8 {
            assert(spec_profiles()[8].base == 70);
        } else if i == 9 {
            assert(spec_profiles()[9].base == 85);
        } else if i == 10 {
            assert(spec_profiles()[10].base == 88);
        } else if i == 11 {
            assert(spec_profiles()[11].base == 80);
        } else if i == 12 {
            assert(spec_profiles()[12].base == 70);
        } else if i == 13 {
            assert(spec_profiles()[13].base == 90);
        } else if i == 14 {
            assert(spec_profiles()[14].base == 78);
        } else if i == 15 {
            assert(spec_profiles()[15].base == 60);
        } else if i == 16 {
            assert(spec_profiles()[16].base == 70);
        } else {
            assert(spec_profiles()[17].base == 50);
        }
    }
}

/// Builds the rule store; the result matches `spec_rules` entry by entry.
#[verifier::rlimit(50)]
pub fn rules() -> (rs: Vec<Rule>)
    ensures
        rs@.len() == spec_rules().len(),
        forall|i: int| 0 <= i < rs@.len() ==> (#[trigger] rs@[i])@ == spec_rules()[i],
{
    let mut rs: Vec<Rule> = Vec::new();
    rs.push(
        Rule::new(
            "Hadoop/Spark",
            60,
            "Hadoop/Spark chosen for large batch data, low SLA, limited budget.",
            Option::Some("large"),
            Option::Some("batch"),
            Option::Some("low"),
            Option::Some("low"),
            Option::None,
        ),
    );
    rs.push(
        Rule::new(
            "Data Warehouse",
            70,
            "Data Warehouse chosen for medium batch workloads with high SLA.",
            Option::Some("medium"),
            Option::Some("batch"),
            Option::Some("high"),
            Option::None,
            Option::None,
        ),
    );
    rs.push(
        Rule::new(
            "Kafka/Flink",
            90,
            "Kafka/Flink chosen for real-time streaming with strict SLA.",
            Option::None,
            Option::Some("streaming"),
            Option::Some("high"),
            Option::None,
            Option::None,
        ),
    );
    rs.push(
        Rule::new(
            "Lakehouse",
            95,
            "Lakehouse chosen for large mixed workloads, high SLA, sufficient budget.",
            Option::Some("large"),
            Option::Some("mixed"),
            Option::Some("high"),
            Option::Some("high"),
            Option::None,
        ),
    );
    rs.push(
        Rule::new(
            "Cloud DW (BigQuery/Snowflake)",
            85,
            "Cloud DW chosen for medium mixed workloads, high SLA, high budget.",
            Option::Some("medium"),
            Option::Some("mixed"),
            Option::Some("high"),
            Option::Some("high"),
            Option::None,
        ),
    );
    rs.push(
        Rule::new(
            "Data Mesh",
            90,
            "Data Mesh chosen for large distributed domains, mixed workloads, decentralized ownership.",
            Option::Some("large"),
            Option::Some("mixed"),
            Option::Some("high"),
            Option::None,
            Option::None,
        ),
    );
    rs.push(
        Rule::new(
            "ETL Pipelines",
            50,
            "ETL Pipelines chosen for batch workloads, relaxed SLA, limited budget.",
            Option::None,
            Option::Some("batch"),
            Option::Some("low"),
            Option::Some("low"),
            Option::None,
        ),
    );
    rs.push(
        Rule::new(
            "ML Platform (Kubeflow/MLflow)",
            88,
            "ML Platform chosen for advanced analytics, ML, sufficient budget.",
            Option::None,
            Option::Some("mixed"),
            Option::Some("high"),
            Option::Some("high"),
            Option::None,
        ),
    );
    rs.push(
        Rule::new(
            "Hybrid Cloud",
            80,
            "Hybrid Cloud chosen for large mixed workloads, strict SLA, flexibility across on-prem/cloud.",
            Option::Some("large"),
            Option::Some("mixed"),
            Option::Some("high"),
            Option::None,
            Option::None,
        ),
    );
    rs.push(
        Rule::new(
            "Data Lake (S3/ADLS)",
            75,
            "Data Lake chosen for large-scale storage, batch workloads, high SLA, high budget.",
            Option::Some("large"),
            Option::Some("batch"),
            Option::Some("high"),
            Option::Some("high"),
            Option::None,
        ),
    );
    rs.push(
        Rule::new(
            "Orchestration (Airflow/Prefect)",
            65,
            "Orchestration chosen for managing complex batch pipelines with SLA guarantees.",
            Option::None,
            Option::Some("batch"),
            Option::Some("high"),
            Option::None,
            Option::None,
        ),
    );
    rs.push(
        Rule::new(
            "Governance Layer (Collibra/Alation)",
            70,
            "Governance chosen for large datasets with strict SLA and compliance needs.",
            Option::Some("large"),
            Option::None,
            Option::Some("high"),
            Option::None,
            Option::None,
        ),
    );
    rs.push(
        Rule::new(
            "Monitoring Stack (Prometheus/Grafana)",
            85,
            "Monitoring stack chosen for deep metrics, dashboards, and SLA compliance.",
            Option::None,
            Option::None,
            Option::None,
            Option::None,
            Option::Some("high"),
        ),
    );
    rs.push(
        Rule::new(
            "Distributed Tracing (OpenTelemetry/Jaeger)",
            88,
            "Tracing chosen for end-to-end visibility across streaming pipelines.",
            Option::None,
            Option::Some("streaming"),
            Option::None,
            Option::None,
            Option::Some("high"),
        ),
    );
    rs.push(
        Rule::new(
            "Data Lineage Tools (OpenLineage/Marquez)",
            80,
            "Lineage tools chosen for compliance and auditability in large-scale pipelines.",
            Option::Some("large"),
            Option::None,
            Option::None,
            Option::None,
            Option::Some("high"),
        ),
    );
    rs.push(
        Rule::new(
            "Cloud-native Monitoring (CloudWatch/Stackdriver/Azure Monitor)",
            75,
            "Cloud-native monitoring chosen for integrated observability in cloud ecosystems.",
            Option::None,
            Option::None,
            Option::None,
            Option::Some("high"),
            Option::Some("medium"),
        ),
    );
    rs.push(
        Rule::new(
            "ELK Stack (Elasticsearch/Logstash/Kibana)",
            70,
            "ELK stack chosen for centralized logging with limited budget.",
            Option::None,
            Option::None,
            Option::None,
            Option::Some("low"),
            Option::Some("medium"),
        ),
    );
    rs.push(
        Rule::new(
            "Alerting & Incident Response (PagerDuty/OpsGenie)",
            90,
            "Alerting chosen for automated incident response and SLA adherence.",
            Option::None,
            Option::None,
            Option::Some("high"),
            Option::None,
            Option::Some("high"),
        ),
    );
    rs.push(
        Rule::new(
            "FinOps Dashboards",
            78,
            "FinOps dashboards chosen for cost control and resource optimization.",
            Option::None,
            Option::None,
            Option::None,
            Option::Some("low"),
            Option::Some("high"),
        ),
    );
    rs
}

/// Builds the profile catalog; the result matches `spec_profiles` entry by
/// entry.
#[verifier::rlimit(50)]
pub fn profiles() -> (ps: Vec<ArchProfile>)
    ensures
        ps@.len() == spec_profiles().len(),
        forall|i: int| 0 <= i < ps@.len() ==> (#[trigger] ps@[i])@ == spec_profiles()[i],
{
    let mut ps: Vec<ArchProfile> = Vec::new();
    ps.push(ArchProfile::new("Lakehouse", "large", "mixed", "high", "high", "high", 95));
    ps.push(ArchProfile::new("Kafka/Flink", "any", "streaming", "high", "any", "high", 90));
    ps.push(
        ArchProfile::new(
            "Cloud-native Monitoring (CloudWatch/Stackdriver/Azure Monitor)",
            "any",
            "any",
            "any",
            "high",
            "medium",
            75,
        ),
    );
    ps.push(ArchProfile::new("Data Mesh", "large", "mixed", "high", "any", "high", 90));
    ps.push(
        ArchProfile::new("ML Platform (Kubeflow/MLflow)", "any", "mixed", "high", "high", "high", 88),
    );
    ps.push(ArchProfile::new("Hybrid Cloud", "large", "mixed", "high", "any", "high", 80));
    ps.push(ArchProfile::new("Data Lake (S3/ADLS)", "large", "batch", "high", "high", "high", 75));
    ps.push(
        ArchProfile::new("Orchestration (Airflow/Prefect)", "any", "batch", "high", "any", "medium", 65),
    );
    ps.push(
        ArchProfile::new(
            "Governance Layer (Collibra/Alation)",
            "large",
            "any",
            "high",
            "any",
            "high",
            70,
        ),
    );
    ps.push(
        ArchProfile::new("Monitoring Stack (Prometheus/Grafana)", "any", "any", "any", "any", "high", 85),
    );
    ps.push(
        ArchProfile::new(
            "Distributed Tracing (OpenTelemetry/Jaeger)",
            "any",
            "streaming",
            "any",
            "any",
            "high",
            88,
        ),
    );
    ps.push(
        ArchProfile::new(
            "Data Lineage Tools (OpenLineage/Marquez)",
            "large",
            "any",
            "any",
            "any",
            "high",
            80,
        ),
    );
    ps.push(
        ArchProfile::new(
            "ELK Stack (Elasticsearch/Logstash/Kibana)",
            "any",
            "any",
            "any",
            "low",
            "medium",
            70,
        ),
    );
    ps.push(
        ArchProfile::new(
            "Alerting & Incident Response (PagerDuty/OpsGenie)",
            "any",
            "any",
            "high",
            "any",
            "high",
            90,
        ),
    );
    ps.push(ArchProfile::new("FinOps Dashboards", "any", "any", "any", "low", "high", 78));
    ps.push(ArchProfile::new("Hadoop/Spark", "large", "batch", "low", "low", "low", 60));
    ps.push(ArchProfile::new("Data Warehouse", "medium", "batch", "high", "any", "medium", 70));
    ps.push(ArchProfile::new("ETL Pipelines", "any", "batch", "low", "low", "low", 50));
    ps
}

} // verus!
