use vstd::prelude::*;

use crate::fetch::{is_success, success_status};
use crate::metric::{Metric, MetricOp, MetricUpdate, UpdateView, error_of, updates_view, upd};

verus! {

/// The updates after a health check: the gauge is 1 on a status of the
/// success class; on any other status, or where no status came back at all,
/// it is 0 and the failure is counted.
pub open spec fn health_updates(status: Option<u16>) -> Seq<UpdateView> {
    match status {
        Some(s) if is_success(s) => seq![upd(Metric::HealthCheck, seq![], MetricOp::SetTo(1))],
        _ => seq![
            upd(Metric::HealthCheck, seq![], MetricOp::SetTo(0)),
            error_of("health"@),
        ],
    }
}

/// Turns the status of the health endpoint, or its absence, into updates.
pub fn check_health(status: Option<u16>) -> (r: Vec<MetricUpdate>)
    ensures
        updates_view(r@) == health_updates(status),
{
    let mut out: Vec<MetricUpdate> = Vec::new();
    let healthy = match status {
        Some(s) => success_status(s),
        None => false,
    };
    if healthy {
        out.push(MetricUpdate::plain(Metric::HealthCheck, MetricOp::SetTo(1)));
    } else {
        out.push(MetricUpdate::plain(Metric::HealthCheck, MetricOp::SetTo(0)));
        out.push(MetricUpdate::error("health"));
    }
    assert(updates_view(out@) =~= health_updates(status));
    out
}

} // verus!
