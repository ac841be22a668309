//! General laws of the evaluator and the scorer, stated and proved once over
//! all inputs: exactness of antecedent matching, wildcard semantics, and
//! monotonicity of the strict-mode rescaling.

use vstd::prelude::*;
use vstd::arithmetic::div_mod::lemma_div_is_ordered;
use vstd::arithmetic::mul::lemma_mul_inequality;

use crate::advisor::multi_ranking;
use crate::model::{
    attr_contribution, fact_value, rule_constraint, rule_fires, similarity, term_matches,
    wildcard, Attr, FactsView, RuleView, Weights,
};
use crate::rank::{lemma_sort_desc_len, lemma_sort_desc_permutes};
use crate::scorer::scored_entries;
use crate::store::spec_profiles;

verus! {

/// Totality of profile scoring: on every input, the multi-mode ranking holds
/// exactly one entry per catalog profile — the profile's name with its
/// similarity score — no filtering, no omission, no duplication.
pub proof fn lemma_multi_ranking_total(f: FactsView, w: Weights)
    ensures
        multi_ranking(f, w).len() == spec_profiles().len(),
        multi_ranking(f, w).to_multiset() == scored_entries(spec_profiles(), f, w).to_multiset(),
        forall|i: int|
            0 <= i < spec_profiles().len() ==> scored_entries(spec_profiles(), f, w)[i] == ((
            #[trigger] spec_profiles()[i]).name, similarity(spec_profiles()[i], f, w) as i32),
{
    lemma_sort_desc_len(scored_entries(spec_profiles(), f, w));
    lemma_sort_desc_permutes(scored_entries(spec_profiles(), f, w));
}

/// Exactness of antecedent matching, first half: a rule fires exactly when
/// every term of its antecedent equals the corresponding fact.
pub proof fn lemma_fires_iff_all_terms_match(r: RuleView, f: FactsView)
    ensures
        rule_fires(r, f) <==> forall|a: Attr|
            term_matches(rule_constraint(r, a), #[trigger] fact_value(f, a)),
{
    if rule_fires(r, f) {
        assert forall|a: Attr| term_matches(rule_constraint(r, a), #[trigger] fact_value(f, a)) by {
            match a {
                Attr::Volume => {},
                Attr::Workload => {},
                Attr::Sla => {},
                Attr::Budget => {},
                Attr::Observability => {},
            }
        }
    }
    if forall|a: Attr| term_matches(rule_constraint(r, a), #[trigger] fact_value(f, a)) {
        assert(term_matches(rule_constraint(r, Attr::Volume), fact_value(f, Attr::Volume)));
        assert(term_matches(rule_constraint(r, Attr::Workload), fact_value(f, Attr::Workload)));
        assert(term_matches(rule_constraint(r, Attr::Sla), fact_value(f, Attr::Sla)));
        assert(term_matches(rule_constraint(r, Attr::Budget), fact_value(f, Attr::Budget)));
        assert(term_matches(
            rule_constraint(r, Attr::Observability),
            fact_value(f, Attr::Observability),
        ));
    }
}

/// Exactness of antecedent matching, second half: changing any single fact
/// that a fired rule's antecedent references deterministically un-fires the
/// rule, whatever the other facts become.
pub proof fn lemma_changed_referenced_fact_unfires(r: RuleView, f1: FactsView, f2: FactsView, a: Attr)
    requires
        rule_fires(r, f1),
        rule_constraint(r, a) is Some,
        fact_value(f2, a) != fact_value(f1, a),
    ensures
        !rule_fires(r, f2),
{
    match a {
        Attr::Volume => {},
        Attr::Workload => {},
        Attr::Sla => {},
        Attr::Budget => {},
        Attr::Observability => {},
    }
}

/// The flip's converse: where every other antecedent term already holds,
/// setting the referenced fact to the required value fires the rule — so a
/// single referenced fact deterministically decides the firing.
pub proof fn lemma_restored_referenced_fact_fires(r: RuleView, f1: FactsView, f2: FactsView, a: Attr)
    requires
        rule_constraint(r, a) is Some,
        forall|b: Attr|
            b != a ==> term_matches(rule_constraint(r, b), #[trigger] fact_value(f1, b)),
        fact_value(f2, a) == rule_constraint(r, a).unwrap(),
        forall|b: Attr| b != a ==> #[trigger] fact_value(f2, b) == fact_value(f1, b),
    ensures
        rule_fires(r, f2),
{
    assert(term_matches(rule_constraint(r, Attr::Volume), fact_value(f1, Attr::Volume)) || a
        == Attr::Volume);
    assert(term_matches(rule_constraint(r, Attr::Workload), fact_value(f1, Attr::Workload)) || a
        == Attr::Workload);
    assert(term_matches(rule_constraint(r, Attr::Sla), fact_value(f1, Attr::Sla)) || a
        == Attr::Sla);
    assert(term_matches(rule_constraint(r, Attr::Budget), fact_value(f1, Attr::Budget)) || a
        == Attr::Budget);
    assert(term_matches(rule_constraint(r, Attr::Observability), fact_value(f1, Attr::Observability))
        || a == Attr::Observability);
    assert(fact_value(f2, Attr::Volume) == fact_value(f1, Attr::Volume) || a == Attr::Volume);
    assert(fact_value(f2, Attr::Workload) == fact_value(f1, Attr::Workload) || a == Attr::Workload);
    assert(fact_value(f2, Attr::Sla) == fact_value(f1, Attr::Sla) || a == Attr::Sla);
    assert(fact_value(f2, Attr::Budget) == fact_value(f1, Attr::Budget) || a == Attr::Budget);
    assert(fact_value(f2, Attr::Observability) == fact_value(f1, Attr::Observability) || a
        == Attr::Observability);
}

/// An attribute absent from the antecedent is unconstrained: changing that
/// fact alone never changes whether the rule fires.
pub proof fn lemma_unreferenced_fact_irrelevant(r: RuleView, f1: FactsView, f2: FactsView, a: Attr)
    requires
        rule_constraint(r, a) is None,
        forall|b: Attr| b != a ==> #[trigger] fact_value(f2, b) == fact_value(f1, b),
    ensures
        rule_fires(r, f2) == rule_fires(r, f1),
{
    assert(fact_value(f2, Attr::Volume) == fact_value(f1, Attr::Volume) || a == Attr::Volume);
    assert(fact_value(f2, Attr::Workload) == fact_value(f1, Attr::Workload) || a == Attr::Workload);
    assert(fact_value(f2, Attr::Sla) == fact_value(f1, Attr::Sla) || a == Attr::Sla);
    assert(fact_value(f2, Attr::Budget) == fact_value(f1, Attr::Budget) || a == Attr::Budget);
    assert(fact_value(f2, Attr::Observability) == fact_value(f1, Attr::Observability) || a
        == Attr::Observability);
}

/// Wildcard semantics, first half: a wildcard attribute contributes exactly
/// `weight * 5`, whatever the fact is — changing the fact never changes it.
pub proof fn lemma_wildcard_contribution(fact1: Seq<char>, fact2: Seq<char>, weight: int)
    ensures
        attr_contribution(wildcard(), fact1, weight) == weight * 5,
        attr_contribution(wildcard(), fact1, weight) == attr_contribution(
            wildcard(),
            fact2,
            weight,
        ),
{
}

/// Wildcard semantics, second half: a concrete expected value contributes
/// exactly `weight * 10` on an exact match and exactly 0 on a mismatch.
pub proof fn lemma_concrete_contribution(expected: Seq<char>, fact: Seq<char>, weight: int)
    requires
        expected != wildcard(),
    ensures
        expected == fact ==> attr_contribution(expected, fact, weight) == weight * 10,
        expected != fact ==> attr_contribution(expected, fact, weight) == 0,
{
}

/// Scaling monotonicity: for a fixed fired rule, a larger weight mass never
/// decreases the rescaled score `floor(base * mass / 10)` — truncation may
/// hold it equal over a bounded range, never pull it down.
pub proof fn lemma_scaling_monotonic(base: int, mass1: int, mass2: int)
    requires
        0 <= base,
        0 <= mass1 <= mass2,
    ensures
        base * mass1 / 10 <= base * mass2 / 10,
{
    lemma_mul_inequality(mass1, mass2, base);
    assert(mass1 * base == base * mass1) by {
        vstd::arithmetic::mul::lemma_mul_is_commutative(mass1, base);
    }
    assert(mass2 * base == base * mass2) by {
        vstd::arithmetic::mul::lemma_mul_is_commutative(mass2, base);
    }
    lemma_div_is_ordered(base * mass1, base * mass2, 10);
}

} // verus!
