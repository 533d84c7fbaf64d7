use vstd::prelude::*;

use crate::fetch::{Fetch, fetched, into_body};
use crate::metric::{Metric, MetricUpdate, UpdateView, error_of, updates_view};
use crate::sql::{SQLRequest, SQLResult, bulk_request, is_bulk_request, normalize_results, normalized, strs_view};

verus! {

pub const CRON_FAILED_SQL: &'static str = "SELECT COUNT(*), trigger_name FROM hdb_catalog.hdb_cron_events WHERE status = 'error' GROUP BY trigger_name;";

pub const CRON_SUCCESSFUL_SQL: &'static str = "SELECT COUNT(*), trigger_name FROM hdb_catalog.hdb_cron_events WHERE status = 'delivered' GROUP BY trigger_name;";

pub const CRON_PENDING_SQL: &'static str = "SELECT COUNT(*), trigger_name FROM hdb_catalog.hdb_cron_events WHERE status = 'scheduled' GROUP BY trigger_name;";

pub const CRON_PROCESSED_SQL: &'static str = "SELECT COUNT(*), trigger_name FROM hdb_catalog.hdb_cron_events WHERE status = 'error' or status = 'delivered' GROUP BY trigger_name;";

/// The queries of the cron trigger collection, in order.
pub open spec fn cron_sqls() -> Seq<Seq<char>> {
    seq![CRON_FAILED_SQL@, CRON_SUCCESSFUL_SQL@, CRON_PENDING_SQL@, CRON_PROCESSED_SQL@]
}

/// The gauge that the answer at each position of the collection drives.
pub open spec fn cron_targets() -> Seq<Metric> {
    seq![
        Metric::CronTriggerFailed,
        Metric::CronTriggerSuccessful,
        Metric::CronTriggerPending,
        Metric::CronTriggerProcessed,
    ]
}

/// The updates of one cron trigger collection: the normalized answers, or
/// one counted failure where no usable answer came back.
pub open spec fn cron_updates(response: Fetch<Vec<SQLResult>>) -> Seq<UpdateView> {
    match fetched(response) {
        Some(results) => normalized(results@, cron_targets(), None),
        None => seq![error_of("cron"@)],
    }
}

/// The bulk request that counts cron events per trigger and status on the
/// default source.
pub fn create_cron_trigger_request() -> (r: SQLRequest)
    ensures
        is_bulk_request(r, "run_sql"@, "default"@, cron_sqls()),
{
    let mut sqls: Vec<&str> = Vec::new();
    sqls.push(CRON_FAILED_SQL);
    sqls.push(CRON_SUCCESSFUL_SQL);
    sqls.push(CRON_PENDING_SQL);
    sqls.push(CRON_PROCESSED_SQL);
    assert(strs_view(sqls@) =~= cron_sqls());
    bulk_request("run_sql", "default", &sqls)
}

/// The gauges that the answers of the cron trigger request drive, in order.
pub fn cron_trigger_targets() -> (r: Vec<Metric>)
    ensures
        r@ == cron_targets(),
{
    let mut t: Vec<Metric> = Vec::new();
    t.push(Metric::CronTriggerFailed);
    t.push(Metric::CronTriggerSuccessful);
    t.push(Metric::CronTriggerPending);
    t.push(Metric::CronTriggerProcessed);
    assert(t@ =~= cron_targets());
    t
}

/// Turns the answer to the cron trigger request into updates.
pub fn check_cron_triggers(response: Fetch<Vec<SQLResult>>) -> (r: Vec<MetricUpdate>)
    ensures
        updates_view(r@) == cron_updates(response),
{
    match into_body(response) {
        Some(results) => normalize_results(&results, &cron_trigger_targets(), None),
        None => {
            let mut out: Vec<MetricUpdate> = Vec::new();
            out.push(MetricUpdate::error("cron"));
            assert(updates_view(out@) =~= seq![error_of("cron"@)]);
            out
        },
    }
}

} // verus!
