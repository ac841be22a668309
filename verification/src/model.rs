//! Core data model: query facts, per-attribute weights, rules of the rule
//! store, and catalog profiles, together with the spec-level matching and
//! scoring functions that the contracts of the whole crate are stated over.

use vstd::prelude::*;

verus! {

/// The five categorical query inputs, one lowercase value per attribute.
/// A value outside the expected domain is not an error: it simply matches
/// no rule term and no concrete profile attribute.
pub struct Facts {
    pub volume: String,
    pub workload: String,
    pub sla: String,
    pub budget: String,
    pub observability: String,
}

/// Mathematical image of `Facts`: each attribute as a character sequence.
pub struct FactsView {
    pub volume: Seq<char>,
    pub workload: Seq<char>,
    pub sla: Seq<char>,
    pub budget: Seq<char>,
    pub observability: Seq<char>,
}

impl View for Facts {
    type V = FactsView;

    open spec fn view(&self) -> FactsView {
        FactsView {
            volume: self.volume@,
            workload: self.workload@,
            sla: self.sla@,
            budget: self.budget@,
            observability: self.observability@,
        }
    }
}

impl Facts {
    /// Builds the fact record for one query.
    pub fn new(volume: &str, workload: &str, sla: &str, budget: &str, observability: &str) -> (f:
        Facts)
        ensures
            f@.volume == volume@,
            f@.workload == workload@,
            f@.sla == sla@,
            f@.budget == budget@,
            f@.observability == observability@,
    {
        Facts {
            volume: volume.to_owned(),
            workload: workload.to_owned(),
            sla: sla.to_owned(),
            budget: budget.to_owned(),
            observability: observability.to_owned(),
        }
    }
}

/// The five per-attribute multipliers supplied with a query.
/// The model takes them non-negative.
#[derive(Clone, Copy)]
pub struct Weights {
    pub sla_w: i32,
    pub budget_w: i32,
    pub volume_w: i32,
    pub workload_w: i32,
    pub observability_w: i32,
}

impl Weights {
    /// Builds the weight record for one query.
    pub fn new(sla_w: i32, budget_w: i32, volume_w: i32, workload_w: i32, observability_w: i32) -> (w:
        Weights)
        ensures
            w == (Weights { sla_w, budget_w, volume_w, workload_w, observability_w }),
    {
        Weights { sla_w, budget_w, volume_w, workload_w, observability_w }
    }
}

/// The overall weight mass: the sum of the five weights.
pub open spec fn weight_total(w: Weights) -> int {
    w.sla_w + w.budget_w + w.volume_w + w.workload_w + w.observability_w
}

/// All five weights are non-negative.
pub open spec fn nonnegative_weights(w: Weights) -> bool {
    &&& 0 <= w.sla_w
    &&& 0 <= w.budget_w
    &&& 0 <= w.volume_w
    &&& 0 <= w.workload_w
    &&& 0 <= w.observability_w
}

/// One production rule of the static rule store: an antecedent conjunction of
/// per-attribute required values (`None` leaves the attribute unconstrained)
/// guarding a recommendation name, its base score, and an explanation text.
pub struct Rule {
    pub name: String,
    pub base: i32,
    pub explanation: String,
    pub volume: Option<String>,
    pub workload: Option<String>,
    pub sla: Option<String>,
    pub budget: Option<String>,
    pub observability: Option<String>,
}

/// Mathematical image of `Rule`.
pub struct RuleView {
    pub name: Seq<char>,
    pub base: i32,
    pub explanation: Seq<char>,
    pub volume: Option<Seq<char>>,
    pub workload: Option<Seq<char>>,
    pub sla: Option<Seq<char>>,
    pub budget: Option<Seq<char>>,
    pub observability: Option<Seq<char>>,
}

/// The image of an optional borrowed string.
pub open spec fn opt_view(s: Option<&str>) -> Option<Seq<char>> {
    match s {
        Option::Some(v) => Option::Some(v@),
        Option::None => Option::None,
    }
}

/// The image of an optional owned string.
pub open spec fn opt_string_view(s: Option<String>) -> Option<Seq<char>> {
    match s {
        Option::Some(v) => Option::Some(v@),
        Option::None => Option::None,
    }
}

impl View for Rule {
    type V = RuleView;

    open spec fn view(&self) -> RuleView {
        RuleView {
            name: self.name@,
            base: self.base,
            explanation: self.explanation@,
            volume: opt_string_view(self.volume),
            workload: opt_string_view(self.workload),
            sla: opt_string_view(self.sla),
            budget: opt_string_view(self.budget),
            observability: opt_string_view(self.observability),
        }
    }
}

fn opt_owned(s: Option<&str>) -> (r: Option<String>)
    ensures
        opt_string_view(r) == opt_view(s),
{
    match s {
        Option::Some(v) => Option::Some(v.to_owned()),
        Option::None => Option::None,
    }
}

impl Rule {
    /// Builds one rule of the store.
    pub fn new(
        name: &str,
        base: i32,
        explanation: &str,
        volume: Option<&str>,
        workload: Option<&str>,
        sla: Option<&str>,
        budget: Option<&str>,
        observability: Option<&str>,
    ) -> (r: Rule)
        ensures
            r@ == (RuleView {
                name: name@,
                base: base,
                explanation: explanation@,
                volume: opt_view(volume),
                workload: opt_view(workload),
                sla: opt_view(sla),
                budget: opt_view(budget),
                observability: opt_view(observability),
            }),
    {
        Rule {
            name: name.to_owned(),
            base,
            explanation: explanation.to_owned(),
            volume: opt_owned(volume),
            workload: opt_owned(workload),
            sla: opt_owned(sla),
            budget: opt_owned(budget),
            observability: opt_owned(observability),
        }
    }
}

/// One catalog entry for fuzzy scoring: an expected value per attribute
/// (possibly the wildcard `"any"`) and a base score.
pub struct ArchProfile {
    pub name: String,
    pub volume: String,
    pub workload: String,
    pub sla: String,
    pub budget: String,
    pub observability: String,
    pub base: i32,
}

/// Mathematical image of `ArchProfile`.
pub struct ProfileView {
    pub name: Seq<char>,
    pub volume: Seq<char>,
    pub workload: Seq<char>,
    pub sla: Seq<char>,
    pub budget: Seq<char>,
    pub observability: Seq<char>,
    pub base: i32,
}

impl View for ArchProfile {
    type V = ProfileView;

    open spec fn view(&self) -> ProfileView {
        ProfileView {
            name: self.name@,
            volume: self.volume@,
            workload: self.workload@,
            sla: self.sla@,
            budget: self.budget@,
            observability: self.observability@,
            base: self.base,
        }
    }
}

impl ArchProfile {
    /// Builds one catalog profile.
    pub fn new(
        name: &str,
        volume: &str,
        workload: &str,
        sla: &str,
        budget: &str,
        observability: &str,
        base: i32,
    ) -> (p: ArchProfile)
        ensures
            p@ == (ProfileView {
                name: name@,
                volume: volume@,
                workload: workload@,
                sla: sla@,
                budget: budget@,
                observability: observability@,
                base: base,
            }),
    {
        ArchProfile {
            name: name.to_owned(),
            volume: volume.to_owned(),
            workload: workload.to_owned(),
            sla: sla.to_owned(),
            budget: budget.to_owned(),
            observability: observability.to_owned(),
            base,
        }
    }
}

/// The image of a list of scored entries: each name as a character sequence,
/// each score unchanged.
pub open spec fn entries_view(s: Seq<(String, i32)>) -> Seq<(Seq<char>, i32)> {
    s.map_values(|e: (String, i32)| (e.0@, e.1))
}

/// The image of a list of owned strings.
pub open spec fn strings_view(s: Seq<String>) -> Seq<Seq<char>> {
    s.map_values(|t: String| t@)
}

/// The image of a list of rules.
pub open spec fn rules_view(s: Seq<Rule>) -> Seq<RuleView> {
    s.map_values(|r: Rule| r@)
}

/// The image of a list of profiles.
pub open spec fn profiles_view(s: Seq<ArchProfile>) -> Seq<ProfileView> {
    s.map_values(|p: ArchProfile| p@)
}

/// The five attribute positions, for stating per-attribute laws.
pub enum Attr {
    Volume,
    Workload,
    Sla,
    Budget,
    Observability,
}

/// The current fact for one attribute.
pub open spec fn fact_value(f: FactsView, a: Attr) -> Seq<char> {
    match a {
        Attr::Volume => f.volume,
        Attr::Workload => f.workload,
        Attr::Sla => f.sla,
        Attr::Budget => f.budget,
        Attr::Observability => f.observability,
    }
}

/// A rule's antecedent term for one attribute, `None` if unconstrained.
pub open spec fn rule_constraint(r: RuleView, a: Attr) -> Option<Seq<char>> {
    match a {
        Attr::Volume => r.volume,
        Attr::Workload => r.workload,
        Attr::Sla => r.sla,
        Attr::Budget => r.budget,
        Attr::Observability => r.observability,
    }
}

/// A profile's expected value for one attribute.
pub open spec fn profile_expected(p: ProfileView, a: Attr) -> Seq<char> {
    match a {
        Attr::Volume => p.volume,
        Attr::Workload => p.workload,
        Attr::Sla => p.sla,
        Attr::Budget => p.budget,
        Attr::Observability => p.observability,
    }
}

/// The weight attached to one attribute.
pub open spec fn attr_weight(w: Weights, a: Attr) -> int {
    match a {
        Attr::Volume => w.volume_w as int,
        Attr::Workload => w.workload_w as int,
        Attr::Sla => w.sla_w as int,
        Attr::Budget => w.budget_w as int,
        Attr::Observability => w.observability_w as int,
    }
}

/// The sentinel profile value that matches every fact.
pub open spec fn wildcard() -> Seq<char> {
    "any"@
}

/// One antecedent term is satisfied: either the attribute is unconstrained,
/// or the required value equals the current fact exactly.
pub open spec fn term_matches(constraint: Option<Seq<char>>, fact: Seq<char>) -> bool {
    match constraint {
        Option::Some(v) => v == fact,
        Option::None => true,
    }
}

/// A rule fires: every term of its antecedent conjunction is satisfied by
/// the current facts.
pub open spec fn rule_fires(r: RuleView, f: FactsView) -> bool {
    &&& term_matches(r.volume, f.volume)
    &&& term_matches(r.workload, f.workload)
    &&& term_matches(r.sla, f.sla)
    &&& term_matches(r.budget, f.budget)
    &&& term_matches(r.observability, f.observability)
}

/// One attribute's contribution to a profile's similarity score: the wildcard
/// always contributes `weight * 5`, an exact match `weight * 10`, a mismatch 0.
pub open spec fn attr_contribution(expected: Seq<char>, fact: Seq<char>, weight: int) -> int {
    if expected == wildcard() {
        weight * 5
    } else if expected == fact {
        weight * 10
    } else {
        0
    }
}

/// A profile's full similarity score against the current facts and weights:
/// its base score plus the five per-attribute contributions.
pub open spec fn similarity(p: ProfileView, f: FactsView, w: Weights) -> int {
    p.base + attr_contribution(p.volume, f.volume, w.volume_w as int) + attr_contribution(
        p.workload,
        f.workload,
        w.workload_w as int,
    ) + attr_contribution(p.sla, f.sla, w.sla_w as int) + attr_contribution(
        p.budget,
        f.budget,
        w.budget_w as int,
    ) + attr_contribution(p.observability, f.observability, w.observability_w as int)
}

} // verus!
