//! The fixed-point rule evaluator and the strict-mode score combiner.
//!
//! The rule set is non-recursive (no rule depends on a derived fact), so
//! closure under entailment is reached in a single pass over the store: a rule
//! contributes its recommendation and its explanation exactly when every term
//! of its antecedent equals the corresponding fact.

use vstd::prelude::*;

use crate::model::{
    entries_view, nonnegative_weights, rule_fires, rules_view, strings_view, weight_total, Facts,
    FactsView, Rule, RuleView, Weights,
};

verus! {

/// The recommendations entailed by the facts under the rules `rs`: one
/// (name, base score) pair per fired rule, in rule-store order. Several rules
/// may conclude the same name; every firing is kept, none is merged.
pub open spec fn fired_entries(rs: Seq<RuleView>, f: FactsView) -> Seq<(Seq<char>, i32)>
    decreases rs.len(),
{
    if rs.len() == 0 {
        Seq::empty()
    } else {
        let rest = fired_entries(rs.drop_last(), f);
        if rule_fires(rs.last(), f) {
            rest.push((rs.last().name, rs.last().base))
        } else {
            rest
        }
    }
}

/// The explanations entailed by the facts under the rules `rs`: one per fired
/// rule, in rule-store order.
pub open spec fn fired_explanations(rs: Seq<RuleView>, f: FactsView) -> Seq<Seq<char>>
    decreases rs.len(),
{
    if rs.len() == 0 {
        Seq::empty()
    } else {
        let rest = fired_explanations(rs.drop_last(), f);
        if rule_fires(rs.last(), f) {
            rest.push(rs.last().explanation)
        } else {
            rest
        }
    }
}

/// The evaluator's output is exactly the fired rules: the derived
/// recommendations (and explanations) are the store filtered to the rules
/// whose antecedents are satisfied, each mapped to its conclusion, in store
/// order — a rule contributes iff it fires, once per firing.
pub proof fn lemma_fired_entries_are_filtered_rules(rs: Seq<RuleView>, f: FactsView)
    ensures
        fired_entries(rs, f) == rs.filter(|r: RuleView| rule_fires(r, f)).map_values(
            |r: RuleView| (r.name, r.base),
        ),
        fired_explanations(rs, f) == rs.filter(|r: RuleView| rule_fires(r, f)).map_values(
            |r: RuleView| r.explanation,
        ),
    decreases rs.len(),
{
    reveal(Seq::filter);
    let pred = |r: RuleView| rule_fires(r, f);
    if rs.len() == 0 {
        assert(fired_entries(rs, f) =~= rs.filter(pred).map_values(
            |r: RuleView| (r.name, r.base),
        ));
        assert(fired_explanations(rs, f) =~= rs.filter(pred).map_values(
            |r: RuleView| r.explanation,
        ));
    } else {
        lemma_fired_entries_are_filtered_rules(rs.drop_last(), f);
        let kept = rs.drop_last().filter(pred);
        if pred(rs.last()) {
            assert(rs.filter(pred) == kept.push(rs.last()));
            assert(kept.push(rs.last()).map_values(|r: RuleView| (r.name, r.base))
                =~= kept.map_values(|r: RuleView| (r.name, r.base)).push(
                (rs.last().name, rs.last().base),
            ));
            assert(kept.push(rs.last()).map_values(|r: RuleView| r.explanation) =~= kept.map_values(
                |r: RuleView| r.explanation,
            ).push(rs.last().explanation));
        } else {
            assert(rs.filter(pred) == kept);
        }
    }
}

/// Base-score bounds carry from the rules to the derived recommendations:
/// every derived entry takes its score from some rule of the store.
pub proof fn lemma_fired_entries_bases(rs: Seq<RuleView>, f: FactsView, lo: int, hi: int)
    requires
        forall|i: int| 0 <= i < rs.len() ==> lo <= (#[trigger] rs[i]).base <= hi,
    ensures
        forall|k: int|
            0 <= k < fired_entries(rs, f).len() ==> lo <= (#[trigger] fired_entries(rs, f)[k]).1
                <= hi,
    decreases rs.len(),
{
    if rs.len() > 0 {
        assert(forall|i: int|
            0 <= i < rs.drop_last().len() ==> lo <= (#[trigger] rs.drop_last()[i]).base <= hi);
        lemma_fired_entries_bases(rs.drop_last(), f, lo, hi);
        let rest = fired_entries(rs.drop_last(), f);
        let whole = fired_entries(rs, f);
        assert(lo <= rs.last().base <= hi);
        assert forall|k: int| 0 <= k < whole.len() implies lo <= (#[trigger] whole[k]).1 <= hi by {
            if rule_fires(rs.last(), f) {
                assert(whole == rest.push((rs.last().name, rs.last().base)));
                if k < rest.len() {
                    assert(whole[k] == rest[k]);
                } else {
                    assert(whole[k] == (rs.last().name, rs.last().base));
                }
            } else {
                assert(whole == rest);
            }
        }
    }
}

/// Whether every term of the rule's antecedent equals the corresponding fact.
pub fn antecedent_matches(rule: &Rule, facts: &Facts) -> (b: bool)
    ensures
        b == rule_fires(rule@, facts@),
{
    let volume_ok = match &rule.volume {
        Option::Some(v) => *v == facts.volume,
        Option::None => true,
    };
    let workload_ok = match &rule.workload {
        Option::Some(v) => *v == facts.workload,
        Option::None => true,
    };
    let sla_ok = match &rule.sla {
        Option::Some(v) => *v == facts.sla,
        Option::None => true,
    };
    let budget_ok = match &rule.budget {
        Option::Some(v) => *v == facts.budget,
        Option::None => true,
    };
    let observability_ok = match &rule.observability {
        Option::Some(v) => *v == facts.observability,
        Option::None => true,
    };
    volume_ok && workload_ok && sla_ok && budget_ok && observability_ok
}

/// Evaluates every rule of `rs` against the facts and returns the derived
/// recommendations and explanations, both in rule-store order.
pub fn evaluate_rules(rs: &Vec<Rule>, facts: &Facts) -> (out: (Vec<(String, i32)>, Vec<String>))
    ensures
        entries_view(out.0@) == fired_entries(rules_view(rs@), facts@),
        strings_view(out.1@) == fired_explanations(rules_view(rs@), facts@),
{
    let ghost rv = rules_view(rs@);
    let mut recs: Vec<(String, i32)> = Vec::new();
    let mut expls: Vec<String> = Vec::new();
    for i in 0..rs.len()
        invariant
            rv == rules_view(rs@),
            entries_view(recs@) == fired_entries(rv.subrange(0, i as int), facts@),
            strings_view(expls@) == fired_explanations(rv.subrange(0, i as int), facts@),
    {
        let ghost prev_recs = recs@;
        let ghost prev_expls = expls@;
        let rule = &rs[i];
        let fired = antecedent_matches(rule, facts);
        if fired {
            recs.push((rule.name.clone(), rule.base));
            expls.push(rule.explanation.clone());
        }
        proof {
            assert(rv.subrange(0, i + 1).drop_last() =~= rv.subrange(0, i as int));
            assert(rv.subrange(0, i + 1).last() == rule@);
            if fired {
                assert(entries_view(recs@) =~= entries_view(prev_recs).push(
                    (rule@.name, rule@.base),
                ));
                assert(strings_view(expls@) =~= strings_view(prev_expls).push(rule@.explanation));
            }
        }
    }
    proof {
        assert(rv.subrange(0, rs@.len() as int) =~= rv);
    }
    (recs, expls)
}

/// The strict-mode rescaling: each (name, base) becomes
/// (name, floor(base * weight mass / 10)), entry for entry, order kept.
pub open spec fn scaled_entries(s: Seq<(Seq<char>, i32)>, mass: int) -> Seq<(Seq<char>, i32)> {
    s.map_values(|e: (Seq<char>, i32)| (e.0, ((e.1 as int * mass) / 10) as i32))
}

/// Rescales each derived recommendation's base score by the overall weight
/// mass, with truncating division; duplicates are preserved, not merged.
pub fn scale_scores(recs: &Vec<(String, i32)>, weights: &Weights) -> (out: Vec<(String, i32)>)
    requires
        nonnegative_weights(*weights),
        weight_total(*weights) <= i32::MAX,
        forall|i: int| 0 <= i < recs@.len() ==> 0 <= (#[trigger] recs@[i]).1,
        forall|i: int|
            0 <= i < recs@.len() ==> (#[trigger] recs@[i]).1 as int * weight_total(*weights)
                <= i32::MAX,
    ensures
        entries_view(out@) == scaled_entries(entries_view(recs@), weight_total(*weights)),
{
    let mass: i32 = weights.sla_w + weights.budget_w + weights.volume_w + weights.workload_w
        + weights.observability_w;
    let mut out: Vec<(String, i32)> = Vec::new();
    for i in 0..recs.len()
        invariant
            nonnegative_weights(*weights),
            mass == weight_total(*weights),
            out@.len() == i,
            forall|k: int| 0 <= k < recs@.len() ==> 0 <= (#[trigger] recs@[k]).1,
            forall|k: int|
                0 <= k < recs@.len() ==> (#[trigger] recs@[k]).1 as int * weight_total(*weights)
                    <= i32::MAX,
            forall|k: int|
                0 <= k < i ==> (#[trigger] out@[k]).0@ == recs@[k].0@ && out@[k].1 == ((
                recs@[k].1 as int * weight_total(*weights)) / 10) as i32,
    {
        let base = recs[i].1;
        proof {
            assert(0 <= recs@[i as int].1);
            assert(recs@[i as int].1 as int * weight_total(*weights) <= i32::MAX);
            vstd::arithmetic::mul::lemma_mul_nonnegative(base as int, mass as int);
        }
        let product: u64 = (base as u64) * (mass as u64);
        proof {
            assert(product / 10 <= product);
        }
        let scaled: i32 = (product / 10) as i32;
        out.push((recs[i].0.clone(), scaled));
    }
    proof {
        assert(entries_view(out@) =~= scaled_entries(entries_view(recs@), weight_total(*weights)));
    }
    out
}

} // verus!
