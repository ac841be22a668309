//! An architecture-recommendation advisor.
//!
//! Given five categorical inputs describing a data platform (data volume,
//! workload shape, SLA tier, budget tier, observability tier) and five
//! integer weights, the library produces ranked candidate technology stacks
//! with integer confidence scores, by one of two evaluation strategies:
//!
//! - strict mode: a fixed rule store is forward-chained over the facts; every
//!   rule whose antecedent conjunction is satisfied contributes its
//!   recommendation (rescaled by the weight mass) and its explanation;
//! - multi mode: every profile of a fixed catalog is scored against the facts
//!   by weighted partial matching with a wildcard, and the whole catalog is
//!   returned ranked.

pub mod advisor;
pub mod engine;
pub mod laws;
pub mod model;
pub mod rank;
pub mod scorer;
pub mod store;
pub mod weights;
