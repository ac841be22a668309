//! The multi-mode similarity scorer: every profile of a catalog is scored
//! against the current facts by weighted partial matching, the wildcard
//! `"any"` contributing half of an exact match.

use vstd::prelude::*;

use crate::model::{
    attr_contribution, entries_view, nonnegative_weights, profiles_view, similarity, weight_total,
    wildcard, ArchProfile, Facts, FactsView, ProfileView, Weights,
};

verus! {

/// The facts named by the five user inputs, in the order volume, workload,
/// SLA, budget, observability.
pub open spec fn user_facts(user: (&str, &str, &str, &str, &str)) -> FactsView {
    FactsView {
        volume: user.0@,
        workload: user.1@,
        sla: user.2@,
        budget: user.3@,
        observability: user.4@,
    }
}

/// The weights named by a five-weight tuple, in the order SLA, budget,
/// volume, workload, observability.
pub open spec fn tuple_weights(weights: (i32, i32, i32, i32, i32)) -> Weights {
    Weights {
        sla_w: weights.0,
        budget_w: weights.1,
        volume_w: weights.2,
        workload_w: weights.3,
        observability_w: weights.4,
    }
}

/// One attribute's weighted contribution: `weight * 5` for the wildcard,
/// `weight * 10` for an exact match, 0 for a mismatch.
fn attr_score(expected: &String, fact: &str, weight: i32, any: &String) -> (c: i32)
    requires
        0 <= weight,
        10 * (weight as int) <= i32::MAX,
        any@ == wildcard(),
    ensures
        c == attr_contribution(expected@, fact@, weight as int),
        0 <= c <= 10 * (weight as int),
{
    if *expected == *any {
        weight * 5
    } else if *expected == fact.to_owned() {
        weight * 10
    } else {
        0
    }
}

/// One profile's weighted match score against the user's five inputs: the
/// profile's base score, plus `weight * 5` for each wildcard attribute,
/// `weight * 10` for each exact match, and 0 for each mismatch.
pub fn similarity_score(
    user: (&str, &str, &str, &str, &str),
    weights: (i32, i32, i32, i32, i32),
    arch: &ArchProfile,
) -> (score: i32)
    requires
        nonnegative_weights(tuple_weights(weights)),
        0 <= arch@.base,
        arch@.base + 10 * weight_total(tuple_weights(weights)) <= i32::MAX,
    ensures
        score == similarity(arch@, user_facts(user), tuple_weights(weights)),
{
    let (vol, wl, sla, bud, obs) = user;
    let (sla_w, bud_w, vol_w, wl_w, obs_w) = weights;
    let any = "any".to_owned();
    let mut score = arch.base;
    score = score + attr_score(&arch.volume, vol, vol_w, &any);
    score = score + attr_score(&arch.workload, wl, wl_w, &any);
    score = score + attr_score(&arch.sla, sla, sla_w, &any);
    score = score + attr_score(&arch.budget, bud, bud_w, &any);
    score = score + attr_score(&arch.observability, obs, obs_w, &any);
    score
}

/// Each profile of `ps` mapped to its (name, similarity score) pair, in
/// catalog order: exactly one entry per profile.
pub open spec fn scored_entries(ps: Seq<ProfileView>, f: FactsView, w: Weights) -> Seq<
    (Seq<char>, i32),
> {
    ps.map_values(|p: ProfileView| (p.name, similarity(p, f, w) as i32))
}

/// Scores every profile of the catalog against the facts and weights. The
/// output has exactly one entry per profile, in catalog order: no filtering,
/// no omission, no duplication.
pub fn score_profiles(ps: &Vec<ArchProfile>, facts: &Facts, weights: &Weights) -> (out: Vec<
    (String, i32),
>)
    requires
        nonnegative_weights(*weights),
        forall|i: int| 0 <= i < ps@.len() ==> 0 <= (#[trigger] ps@[i])@.base,
        forall|i: int|
            0 <= i < ps@.len() ==> (#[trigger] ps@[i])@.base + 10 * weight_total(*weights)
                <= i32::MAX,
    ensures
        entries_view(out@) == scored_entries(profiles_view(ps@), facts@, *weights),
        out@.len() == ps@.len(),
{
    let mut out: Vec<(String, i32)> = Vec::new();
    for i in 0..ps.len()
        invariant
            nonnegative_weights(*weights),
            forall|k: int| 0 <= k < ps@.len() ==> 0 <= (#[trigger] ps@[k])@.base,
            forall|k: int|
                0 <= k < ps@.len() ==> (#[trigger] ps@[k])@.base + 10 * weight_total(*weights)
                    <= i32::MAX,
            out@.len() == i,
            forall|k: int|
                0 <= k < i ==> (#[trigger] out@[k]).0@ == ps@[k]@.name && out@[k].1 == similarity(
                    ps@[k]@,
                    facts@,
                    *weights,
                ) as i32,
    {
        let p = &ps[i];
        let score = similarity_score(
            (
                facts.volume.as_str(),
                facts.workload.as_str(),
                facts.sla.as_str(),
                facts.budget.as_str(),
                facts.observability.as_str(),
            ),
            (weights.sla_w, weights.budget_w, weights.volume_w, weights.workload_w,
            weights.observability_w),
            p,
        );
        out.push((p.name.clone(), score));
    }
    proof {
        assert(entries_view(out@) =~= scored_entries(profiles_view(ps@), facts@, *weights));
    }
    out
}

} // verus!
