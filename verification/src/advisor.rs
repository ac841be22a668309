//! The two evaluation paths over the static tables, composed end to end:
//! strict mode forward-chains the rule store and rescales by the weight mass;
//! multi mode scores the whole profile catalog. Both return their entries
//! ranked descending by score, ties in table order.

use vstd::prelude::*;

use crate::engine::{
    evaluate_rules, fired_entries, fired_explanations, lemma_fired_entries_bases, scale_scores,
    scaled_entries,
};
use crate::model::{
    entries_view, nonnegative_weights, profiles_view, rules_view, strings_view, weight_total,
    Facts, FactsView, Weights,
};
use crate::rank::{rank, sort_desc, sorted_desc};
use crate::scorer::{score_profiles, scored_entries};
use crate::store::{
    lemma_profile_bases_bounded, lemma_rule_bases_bounded, profiles, rules, spec_profiles,
    spec_rules,
};

verus! {

/// The strict-mode result on given facts and weights: every fired rule's
/// recommendation, rescaled by the weight mass and ranked descending.
pub open spec fn strict_ranking(f: FactsView, w: Weights) -> Seq<(Seq<char>, i32)> {
    sort_desc(scaled_entries(fired_entries(spec_rules(), f), weight_total(w)))
}

/// The multi-mode result on given facts and weights: the whole catalog,
/// scored and ranked descending.
pub open spec fn multi_ranking(f: FactsView, w: Weights) -> Seq<(Seq<char>, i32)> {
    sort_desc(scored_entries(spec_profiles(), f, w))
}

/// Strict mode: derives every recommendation and explanation entailed by the
/// facts under the rule store, rescales each recommendation's base score by
/// the weight mass with truncating division, and ranks the recommendations
/// descending. Explanations come back unranked, in rule-store order.
pub fn run_strict(facts: &Facts, weights: &Weights) -> (out: (Vec<(String, i32)>, Vec<String>))
    requires
        nonnegative_weights(*weights),
        95 * weight_total(*weights) <= i32::MAX,
    ensures
        entries_view(out.0@) == strict_ranking(facts@, *weights),
        sorted_desc(entries_view(out.0@)),
        strings_view(out.1@) == fired_explanations(spec_rules(), facts@),
{
    let rs = rules();
    proof {
        assert(rules_view(rs@) =~= spec_rules());
    }
    let (recs, expls) = evaluate_rules(&rs, facts);
    proof {
        lemma_rule_bases_bounded();
        lemma_fired_entries_bases(spec_rules(), facts@, 50, 95);
        assert forall|k: int| 0 <= k < recs@.len() implies 0 <= (#[trigger] recs@[k]).1 by {
            assert(entries_view(recs@)[k].1 == recs@[k].1);
        }
        assert forall|k: int|
            0 <= k < recs@.len() implies (#[trigger] recs@[k]).1 as int * weight_total(*weights)
            <= i32::MAX by {
            assert(entries_view(recs@)[k].1 == recs@[k].1);
            assert(recs@[k].1 <= 95);
            vstd::arithmetic::mul::lemma_mul_inequality(
                recs@[k].1 as int,
                95,
                weight_total(*weights),
            );
        }
    }
    let scaled = scale_scores(&recs, weights);
    let ranked = rank(&scaled);
    (ranked, expls)
}

/// Strict mode's single-recommendation form: the highest-ranked entry (or
/// nothing, when no rule fired), plus all fired explanations. Explanations
/// cover the whole fact set, not only the returned recommendation.
pub fn recommend_single(facts: &Facts, weights: &Weights) -> (out: (
    Option<(String, i32)>,
    Vec<String>,
))
    requires
        nonnegative_weights(*weights),
        95 * weight_total(*weights) <= i32::MAX,
    ensures
        strings_view(out.1@) == fired_explanations(spec_rules(), facts@),
        out.0 is None <==> strict_ranking(facts@, *weights).len() == 0,
        out.0 is Some ==> (out.0.unwrap().0@, out.0.unwrap().1) == strict_ranking(
            facts@,
            *weights,
        )[0],
{
    let (ranked, expls) = run_strict(facts, weights);
    proof {
        assert(entries_view(ranked@).len() == ranked@.len());
    }
    if ranked.len() == 0 {
        (Option::None, expls)
    } else {
        let top = (ranked[0].0.clone(), ranked[0].1);
        proof {
            assert(entries_view(ranked@)[0] == (ranked@[0].0@, ranked@[0].1));
        }
        (Option::Some(top), expls)
    }
}

/// Multi mode: scores every profile of the catalog against the facts and
/// weights — exactly one entry per profile — and ranks the whole catalog
/// descending. No explanations are produced in this mode.
pub fn run_multi(facts: &Facts, weights: &Weights) -> (out: Vec<(String, i32)>)
    requires
        nonnegative_weights(*weights),
        95 + 10 * weight_total(*weights) <= i32::MAX,
    ensures
        entries_view(out@) == multi_ranking(facts@, *weights),
        sorted_desc(entries_view(out@)),
{
    let ps = profiles();
    proof {
        assert(profiles_view(ps@) =~= spec_profiles());
        lemma_profile_bases_bounded();
        assert forall|i: int| 0 <= i < ps@.len() implies 0 <= (#[trigger] ps@[i])@.base by {
            assert(ps@[i]@ == spec_profiles()[i]);
        }
        assert forall|i: int|
            0 <= i < ps@.len() implies (#[trigger] ps@[i])@.base + 10 * weight_total(*weights)
            <= i32::MAX by {
            assert(ps@[i]@ == spec_profiles()[i]);
            assert(spec_profiles()[i].base <= 95);
        }
    }
    let scored = score_profiles(&ps, facts, weights);
    proof {
        assert(scored_entries(profiles_view(ps@), facts@, *weights) == scored_entries(
            spec_profiles(),
            facts@,
            *weights,
        ));
    }
    rank(&scored)
}

} // verus!
