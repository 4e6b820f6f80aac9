//! What holds of the verdict, whatever the checks.

use vstd::prelude::*;
use crate::check::{CheckModel, ObservationModel, TargetModel};
use crate::probe::{healthy_only_on_success, healthy_text};
use crate::report::{
    checks_of, healthy_at, overall_degraded, overall_healthy, overall_of, overall_unhealthy,
};

verus! {

/// How many of the checks read exactly `healthy`.
pub open spec fn healthy_count(checks: Seq<CheckModel>) -> nat
    decreases checks.len(),
{
    if checks.len() == 0 {
        0
    } else if checks.last().status == healthy_text() {
        healthy_count(checks.drop_last()) + 1
    } else {
        healthy_count(checks.drop_last())
    }
}

/// The count of healthy checks never exceeds the number of checks; it
/// reaches that number exactly when every check is healthy, and it is
/// positive exactly when some check is.
pub proof fn healthy_count_agrees(checks: Seq<CheckModel>)
    ensures
        healthy_count(checks) <= checks.len(),
        healthy_count(checks) == checks.len() <==> forall|i: int|
            0 <= i < checks.len() ==> #[trigger] healthy_at(checks, i),
        healthy_count(checks) > 0 <==> exists|i: int| #[trigger] healthy_at(checks, i),
    decreases checks.len(),
{
    if checks.len() > 0 {
        let front = checks.drop_last();
        let last = checks.len() - 1;
        healthy_count_agrees(front);
        assert forall|i: int| 0 <= i < front.len() implies healthy_at(front, i) == healthy_at(
            checks,
            i,
        ) by {
            assert(front[i] == checks[i]);
        }
        if forall|i: int| 0 <= i < checks.len() ==> #[trigger] healthy_at(checks, i) {
            assert(healthy_at(checks, last));
            assert forall|i: int| 0 <= i < front.len() implies #[trigger] healthy_at(front, i) by {
                assert(healthy_at(checks, i));
            }
        }
        if healthy_count(checks) == checks.len() {
            assert forall|i: int| 0 <= i < checks.len() implies #[trigger] healthy_at(
                checks,
                i,
            ) by {
                if i < last {
                    assert(healthy_at(front, i));
                }
            }
        }
        if exists|i: int| #[trigger] healthy_at(checks, i) {
            let i = choose|i: int| #[trigger] healthy_at(checks, i);
            if i < last {
                assert(healthy_at(front, i));
            }
        }
        if healthy_count(checks) > 0 {
            if healthy_at(checks, last) {
            } else {
                let i = choose|i: int| #[trigger] healthy_at(front, i);
                assert(healthy_at(checks, i));
            }
        }
    }
}

/// The verdict is `healthy` where all checks are healthy, `degraded` where
/// some but not all are, and `unhealthy` where none is.
pub proof fn verdict_by_count(checks: Seq<CheckModel>)
    ensures
        overall_of(checks) == if healthy_count(checks) == checks.len() {
            overall_healthy()
        } else if healthy_count(checks) > 0 {
            overall_degraded()
        } else {
            overall_unhealthy()
        },
{
    healthy_count_agrees(checks);
}

/// Where every check reads `healthy`, the verdict is `healthy`.
pub proof fn all_healthy_is_healthy(checks: Seq<CheckModel>)
    requires
        forall|i: int| 0 <= i < checks.len() ==> (#[trigger] checks[i]).status == healthy_text(),
    ensures
        overall_of(checks) == overall_healthy(),
{
    assert forall|i: int| 0 <= i < checks.len() implies #[trigger] healthy_at(checks, i) by {
        assert(checks[i].status == healthy_text());
    }
}

/// Where exactly one of three checks reads `healthy`, the verdict is
/// `degraded`.
pub proof fn one_healthy_of_three_is_degraded(checks: Seq<CheckModel>)
    requires
        checks.len() == 3,
        healthy_count(checks) == 1,
    ensures
        overall_of(checks) == overall_degraded(),
{
    verdict_by_count(checks);
}

/// Where there are checks and none of them reads `healthy`, the verdict is
/// `unhealthy`. (Of no checks at all every one is healthy, and so is the
/// verdict.)
pub proof fn none_healthy_is_unhealthy(checks: Seq<CheckModel>)
    requires
        checks.len() > 0,
        healthy_count(checks) == 0,
    ensures
        overall_of(checks) == overall_unhealthy(),
{
    verdict_by_count(checks);
}

/// The three verdicts differ from one another.
pub proof fn verdicts_differ()
    ensures
        overall_healthy() != overall_degraded(),
        overall_healthy() != overall_unhealthy(),
        overall_degraded() != overall_unhealthy(),
{
    reveal_strlit("healthy");
    reveal_strlit("degraded");
    reveal_strlit("unhealthy");
    assert(overall_healthy()[0] == 'h');
    assert(overall_degraded()[0] == 'd');
    assert(overall_unhealthy()[0] == 'u');
}

/// One probe that did not end in a success response keeps the verdict from
/// `healthy`: a response outside the success range, a failure or a timeout
/// leaves the report degraded or unhealthy.
pub proof fn unsuccessful_probe_is_not_healthy(
    targets: Seq<TargetModel>,
    observations: Seq<ObservationModel>,
    i: int,
)
    requires
        targets.len() == observations.len(),
        0 <= i < targets.len(),
        !observations[i].outcome.is_success(),
    ensures
        overall_of(checks_of(targets, observations)) == overall_degraded() || overall_of(
            checks_of(targets, observations),
        ) == overall_unhealthy(),
{
    let checks = checks_of(targets, observations);
    healthy_only_on_success(observations[i].outcome);
    assert(!healthy_at(checks, i));
}

} // verus!
