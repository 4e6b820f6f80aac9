//! Targets, what was observed of them, and the per-target result.

use vstd::prelude::*;
use crate::probe::{classify, is_check_status, status_of, OutcomeModel, ProbeOutcome};

verus! {

/// One downstream service to be checked.
#[derive(Debug, PartialEq, Eq)]
pub struct CheckTarget {
    /// Diagnostic label under which the result is listed.
    pub name: String,
    /// Where the health endpoint of the service is.
    pub url: String,
}

/// The mathematical content of a [`CheckTarget`].
pub struct TargetModel {
    pub name: Seq<char>,
    pub url: Seq<char>,
}

impl View for CheckTarget {
    type V = TargetModel;

    open spec fn view(&self) -> TargetModel {
        TargetModel { name: self.name@, url: self.url@ }
    }
}

impl DeepView for CheckTarget {
    type V = TargetModel;

    open spec fn deep_view(&self) -> TargetModel {
        self@
    }
}

impl CheckTarget {
    pub fn new(name: &str, url: &str) -> (target: CheckTarget)
        ensures
            target@ == (TargetModel { name: name@, url: url@ }),
    {
        CheckTarget { name: String::from_str(name), url: String::from_str(url) }
    }
}

/// What probing one target yielded: how the request ended, and the
/// milliseconds that passed from just before it was issued until then.
#[derive(Debug, PartialEq, Eq)]
pub struct Observation {
    pub outcome: ProbeOutcome,
    pub latency_ms: u128,
}

/// The mathematical content of an [`Observation`].
pub struct ObservationModel {
    pub outcome: OutcomeModel,
    pub latency_ms: nat,
}

impl View for Observation {
    type V = ObservationModel;

    open spec fn view(&self) -> ObservationModel {
        ObservationModel { outcome: self.outcome@, latency_ms: self.latency_ms as nat }
    }
}

impl DeepView for Observation {
    type V = ObservationModel;

    open spec fn deep_view(&self) -> ObservationModel {
        self@
    }
}

/// The result of checking one service.
#[derive(Debug, PartialEq, Eq)]
pub struct HealthCheckResult {
    pub service: String,
    pub status: String,
    pub latency_ms: u128,
}

/// The mathematical content of a [`HealthCheckResult`].
pub struct CheckModel {
    pub service: Seq<char>,
    pub status: Seq<char>,
    pub latency_ms: nat,
}

impl View for HealthCheckResult {
    type V = CheckModel;

    open spec fn view(&self) -> CheckModel {
        CheckModel {
            service: self.service@,
            status: self.status@,
            latency_ms: self.latency_ms as nat,
        }
    }
}

impl DeepView for HealthCheckResult {
    type V = CheckModel;

    open spec fn deep_view(&self) -> CheckModel {
        self@
    }
}

/// The result that a target named `name` earns with an observation.
pub open spec fn check_of(name: Seq<char>, observation: ObservationModel) -> CheckModel {
    CheckModel {
        service: name,
        status: status_of(observation.outcome),
        latency_ms: observation.latency_ms,
    }
}

/// Builds the result for the service `name` from what its probe yielded:
/// the name and the latency are carried over, the outcome is classified.
pub fn check_service(name: &str, observation: &Observation) -> (result: HealthCheckResult)
    ensures
        result@ == check_of(name@, observation@),
        is_check_status(result@.status),
{
    HealthCheckResult {
        service: String::from_str(name),
        status: classify(&observation.outcome),
        latency_ms: observation.latency_ms,
    }
}

} // verus!
