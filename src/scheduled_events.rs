use vstd::prelude::*;

use crate::fetch::{Fetch, fetched, into_body};
use crate::metric::{Metric, MetricUpdate, UpdateView, error_of, updates_view};
use crate::sql::{SQLRequest, SQLResult, bulk_request, is_bulk_request, normalize_results, normalized, strs_view};

verus! {

pub const SCHEDULED_FAILED_SQL: &'static str = "SELECT COUNT(*) FROM hdb_catalog.hdb_scheduled_events WHERE status = 'error';";

pub const SCHEDULED_SUCCESSFUL_SQL: &'static str = "SELECT COUNT(*) FROM hdb_catalog.hdb_scheduled_events WHERE status = 'delivered';";

pub const SCHEDULED_PENDING_SQL: &'static str = "SELECT COUNT(*) FROM hdb_catalog.hdb_scheduled_events WHERE status = 'scheduled';";

pub const SCHEDULED_PROCESSED_SQL: &'static str = "SELECT COUNT(*) FROM hdb_catalog.hdb_scheduled_events WHERE status = 'error' or status = 'delivered';";

/// The queries of the scheduled event collection, in order.
pub open spec fn scheduled_sqls() -> Seq<Seq<char>> {
    seq![
        SCHEDULED_FAILED_SQL@,
        SCHEDULED_SUCCESSFUL_SQL@,
        SCHEDULED_PENDING_SQL@,
        SCHEDULED_PROCESSED_SQL@,
    ]
}

/// The gauge that the answer at each position of the collection drives.
pub open spec fn scheduled_targets() -> Seq<Metric> {
    seq![
        Metric::ScheduledEventsFailed,
        Metric::ScheduledEventsSuccessful,
        Metric::ScheduledEventsPending,
        Metric::ScheduledEventsProcessed,
    ]
}

/// The updates of one scheduled event collection: the normalized answers, or
/// one counted failure where no usable answer came back.
pub open spec fn scheduled_updates(response: Fetch<Vec<SQLResult>>) -> Seq<UpdateView> {
    match fetched(response) {
        Some(results) => normalized(results@, scheduled_targets(), None),
        None => seq![error_of("scheduled"@)],
    }
}

/// The bulk request that counts scheduled events per status on the default
/// source.
pub fn create_scheduled_event_request() -> (r: SQLRequest)
    ensures
        is_bulk_request(r, "run_sql"@, "default"@, scheduled_sqls()),
{
    let mut sqls: Vec<&str> = Vec::new();
    sqls.push(SCHEDULED_FAILED_SQL);
    sqls.push(SCHEDULED_SUCCESSFUL_SQL);
    sqls.push(SCHEDULED_PENDING_SQL);
    sqls.push(SCHEDULED_PROCESSED_SQL);
    assert(strs_view(sqls@) =~= scheduled_sqls());
    bulk_request("run_sql", "default", &sqls)
}

/// The gauges that the answers of the scheduled event request drive, in order.
pub fn scheduled_event_targets() -> (r: Vec<Metric>)
    ensures
        r@ == scheduled_targets(),
{
    let mut t: Vec<Metric> = Vec::new();
    t.push(Metric::ScheduledEventsFailed);
    t.push(Metric::ScheduledEventsSuccessful);
    t.push(Metric::ScheduledEventsPending);
    t.push(Metric::ScheduledEventsProcessed);
    assert(t@ =~= scheduled_targets());
    t
}

/// Turns the answer to the scheduled event request into updates.
pub fn check_scheduled_events(response: Fetch<Vec<SQLResult>>) -> (r: Vec<MetricUpdate>)
    ensures
        updates_view(r@) == scheduled_updates(response),
{
    match into_body(response) {
        Some(results) => normalize_results(&results, &scheduled_event_targets(), None),
        None => {
            let mut out: Vec<MetricUpdate> = Vec::new();
            out.push(MetricUpdate::error("scheduled"));
            assert(updates_view(out@) =~= seq![error_of("scheduled"@)]);
            out
        },
    }
}

} // verus!
