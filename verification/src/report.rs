//! Folding the per-target results into one report.

use vstd::prelude::*;
use crate::check::{
    check_of, check_service, CheckModel, CheckTarget, HealthCheckResult, Observation,
    ObservationModel, TargetModel,
};
use crate::probe::{healthy_text, is_check_status, status_is_well_formed};

verus! {

/// The verdict when every check is healthy.
pub open spec fn overall_healthy() -> Seq<char> {
    "healthy"@
}

/// The verdict when some checks are healthy, but not all.
pub open spec fn overall_degraded() -> Seq<char> {
    "degraded"@
}

/// The verdict when no check is healthy.
pub open spec fn overall_unhealthy() -> Seq<char> {
    "unhealthy"@
}

/// The three verdicts.
pub open spec fn is_overall_status(status: Seq<char>) -> bool {
    ||| status == overall_healthy()
    ||| status == overall_degraded()
    ||| status == overall_unhealthy()
}

/// Whether the check at `i` reads exactly `healthy`.
pub open spec fn healthy_at(checks: Seq<CheckModel>, i: int) -> bool {
    0 <= i < checks.len() && checks[i].status == healthy_text()
}

/// The verdict over the statuses of all checks.
pub open spec fn overall_of(checks: Seq<CheckModel>) -> Seq<char> {
    if forall|i: int| 0 <= i < checks.len() ==> #[trigger] healthy_at(checks, i) {
        overall_healthy()
    } else if exists|i: int| #[trigger] healthy_at(checks, i) {
        overall_degraded()
    } else {
        overall_unhealthy()
    }
}

/// Whether a status reads exactly `healthy`.
pub fn is_healthy(status: &String) -> (yes: bool)
    ensures
        yes == (status@ == healthy_text()),
{
    let expected = String::from_str("healthy");
    *status == expected
}

/// Computes the verdict over a list of results.
pub fn overall_status(checks: &Vec<HealthCheckResult>) -> (overall: String)
    ensures
        overall@ == overall_of(checks.deep_view()),
        is_overall_status(overall@),
{
    let ghost models = checks.deep_view();
    let mut all: bool = true;
    let mut any: bool = false;
    let mut i: usize = 0;
    while i < checks.len()
        invariant
            i <= checks.len(),
            models == checks.deep_view(),
            all <==> forall|j: int| 0 <= j < i ==> #[trigger] healthy_at(models, j),
            any <==> exists|j: int| 0 <= j < i && #[trigger] healthy_at(models, j),
        decreases checks.len() - i,
    {
        let hit = is_healthy(&checks[i].status);
        assert(hit == healthy_at(models, i as int));
        all = all && hit;
        any = any || hit;
        i = i + 1;
    }
    if all {
        String::from_str("healthy")
    } else if any {
        String::from_str("degraded")
    } else {
        String::from_str("unhealthy")
    }
}

/// The results that a list of targets earns with one observation each, in
/// the order of the targets.
pub open spec fn checks_of(targets: Seq<TargetModel>, observations: Seq<ObservationModel>) -> Seq<
    CheckModel,
> {
    Seq::new(targets.len(), |i: int| check_of(targets[i].name, observations[i]))
}

/// Checks every target against its observation, keeping the targets' order.
pub fn check_all(targets: &Vec<CheckTarget>, observations: &Vec<Observation>) -> (checks: Vec<
    HealthCheckResult,
>)
    requires
        targets.len() == observations.len(),
    ensures
        checks.deep_view() == checks_of(targets.deep_view(), observations.deep_view()),
        checks.len() == targets.len(),
        forall|i: int|
            0 <= i < targets.len() ==> (#[trigger] checks[i])@ == check_of(
                targets[i]@.name,
                observations[i]@,
            ),
{
    let mut checks: Vec<HealthCheckResult> = Vec::new();
    let mut i: usize = 0;
    while i < targets.len()
        invariant
            i <= targets.len(),
            targets.len() == observations.len(),
            checks.len() == i,
            forall|j: int|
                0 <= j < i ==> (#[trigger] checks[j])@ == check_of(
                    targets[j]@.name,
                    observations[j]@,
                ),
        decreases targets.len() - i,
    {
        let check = check_service(targets[i].name.as_str(), &observations[i]);
        checks.push(check);
        i = i + 1;
    }
    assert(checks.deep_view() =~= checks_of(targets.deep_view(), observations.deep_view()));
    checks
}

/// The answer to a deep health request.
#[derive(Debug, PartialEq, Eq)]
pub struct DeepHealthResponse {
    pub overall_status: String,
    pub checks: Vec<HealthCheckResult>,
    pub timestamp: String,
}

/// The mathematical content of a [`DeepHealthResponse`].
pub struct ReportModel {
    pub overall_status: Seq<char>,
    pub checks: Seq<CheckModel>,
    pub timestamp: Seq<char>,
}

impl ReportModel {
    /// The verdict is one of the three, it is the verdict over the listed
    /// checks, and every check carries a status of one of the four forms.
    pub open spec fn well_formed(self) -> bool {
        &&& is_overall_status(self.overall_status)
        &&& self.overall_status == overall_of(self.checks)
        &&& forall|i: int|
            0 <= i < self.checks.len() ==> is_check_status((#[trigger] self.checks[i]).status)
    }
}

impl View for DeepHealthResponse {
    type V = ReportModel;

    open spec fn view(&self) -> ReportModel {
        ReportModel {
            overall_status: self.overall_status@,
            checks: self.checks.deep_view(),
            timestamp: self.timestamp@,
        }
    }
}

impl DeepView for DeepHealthResponse {
    type V = ReportModel;

    open spec fn deep_view(&self) -> ReportModel {
        self@
    }
}

/// The report on `targets`, each with its observation, stamped `timestamp`.
pub open spec fn report_of(
    targets: Seq<TargetModel>,
    observations: Seq<ObservationModel>,
    timestamp: Seq<char>,
) -> ReportModel {
    let checks = checks_of(targets, observations);
    ReportModel { overall_status: overall_of(checks), checks, timestamp }
}

/// Assembles the report on `targets`, one observation for each, under a
/// timestamp that the caller took.
pub fn report_at(
    targets: &Vec<CheckTarget>,
    observations: &Vec<Observation>,
    timestamp: String,
) -> (report: DeepHealthResponse)
    requires
        targets.len() == observations.len(),
    ensures
        report@ == report_of(targets.deep_view(), observations.deep_view(), timestamp@),
        report@.well_formed(),
        report.checks.len() == targets.len(),
        forall|i: int|
            0 <= i < targets.len() ==> (#[trigger] report.checks[i])@ == check_of(
                targets[i]@.name,
                observations[i]@,
            ),
{
    let checks = check_all(targets, observations);
    let overall_status = overall_status(&checks);
    proof {
        report_is_well_formed(targets.deep_view(), observations.deep_view(), timestamp@);
    }
    DeepHealthResponse { overall_status, checks, timestamp }
}

/// Assembles the report on `targets` once every one of them has been
/// observed, and stamps it with the time of assembly. The report lists one
/// check for each target, in the targets' order.
pub fn deep_health(targets: &Vec<CheckTarget>, observations: &Vec<Observation>) -> (report:
    DeepHealthResponse)
    requires
        targets.len() == observations.len(),
    ensures
        report@ == report_of(
            targets.deep_view(),
            observations.deep_view(),
            report@.timestamp,
        ),
        report@.well_formed(),
        report.checks.len() == targets.len(),
        forall|i: int|
            0 <= i < targets.len() ==> (#[trigger] report.checks[i])@ == check_of(
                targets[i]@.name,
                observations[i]@,
            ),
{
    report_at(targets, observations, utc_timestamp())
}

/// Reads the clock with `chrono::Utc::now` and formats the instant with
/// `DateTime::to_rfc3339`. Nothing is claimed of the text. The call panics
/// only where the system clock stands before the Unix epoch.
#[verifier::external_body]
fn utc_timestamp() -> String {
    chrono::Utc::now().to_rfc3339()
}

/// The verdict over any list of checks is one of the three.
pub proof fn overall_is_one_of_three(checks: Seq<CheckModel>)
    ensures
        is_overall_status(overall_of(checks)),
{
}

/// A report lists exactly one check for each target, in the targets' order,
/// under the target's name.
pub proof fn report_follows_targets(
    targets: Seq<TargetModel>,
    observations: Seq<ObservationModel>,
    timestamp: Seq<char>,
)
    ensures
        report_of(targets, observations, timestamp).checks.len() == targets.len(),
        forall|i: int|
            0 <= i < targets.len() ==> (#[trigger] report_of(
                targets,
                observations,
                timestamp,
            ).checks[i]).service == targets[i].name,
{
}

/// Every report that is assembled from observations is well formed.
pub proof fn report_is_well_formed(
    targets: Seq<TargetModel>,
    observations: Seq<ObservationModel>,
    timestamp: Seq<char>,
)
    ensures
        report_of(targets, observations, timestamp).well_formed(),
{
    let report = report_of(targets, observations, timestamp);
    assert forall|i: int| 0 <= i < report.checks.len() implies is_check_status(
        (#[trigger] report.checks[i]).status,
    ) by {
        status_is_well_formed(observations[i].outcome);
    }
}

} // verus!
