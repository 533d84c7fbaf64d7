use vstd::prelude::*;

use crate::fetch::{Fetch, fetched, into_body};
use crate::metric::{Metric, MetricUpdate, UpdateView, error_of, updates_view};
use crate::sql::{SQLRequest, SQLResult, bulk_request, is_bulk_request, normalize_results, normalized, strs_view};
use crate::text::str_equals;
use vstd::string::StringExecFns;

verus! {

pub const EVENT_PROCESSED_SQL: &'static str = "SELECT COUNT(*), trigger_name FROM hdb_catalog.event_log WHERE delivered = 'true' OR error = 'true' GROUP BY trigger_name;";

pub const EVENT_PENDING_SQL: &'static str = "SELECT COUNT(*), trigger_name FROM hdb_catalog.event_log WHERE delivered = 'false' AND error = 'false' AND archived = 'false' GROUP BY trigger_name;";

pub const EVENT_FAILED_SQL: &'static str = "SELECT COUNT(*), trigger_name FROM hdb_catalog.event_log WHERE error = 'true' GROUP BY trigger_name;";

pub const EVENT_SUCCESSFUL_SQL: &'static str = "SELECT COUNT(*), trigger_name FROM hdb_catalog.event_log WHERE error = 'false' AND delivered = 'true' GROUP BY trigger_name;";

/// A database that the exported metadata lists, as far as it was readable.
#[derive(Clone, Debug)]
pub struct DataSource {
    pub name: Option<String>,
    pub kind: Option<String>,
}

/// What the exported metadata tells: its list of databases, where the export
/// held one.
#[derive(Clone, Debug)]
pub struct Metadata {
    pub sources: Option<Vec<DataSource>>,
}

/// A database to query for event triggers, with the kind of query its
/// engine takes.
#[derive(Clone, Debug)]
pub struct EventDatabase {
    pub name: String,
    pub request_type: String,
}

/// The databases to query in one event trigger collection, and the updates
/// owed before any query.
pub struct EventTriggerPlan {
    pub databases: Vec<EventDatabase>,
    pub updates: Vec<MetricUpdate>,
}

/// The queries of the event trigger collection, in order.
pub open spec fn event_sqls() -> Seq<Seq<char>> {
    seq![EVENT_PROCESSED_SQL@, EVENT_PENDING_SQL@, EVENT_FAILED_SQL@, EVENT_SUCCESSFUL_SQL@]
}

/// The gauge that the answer at each position of the collection drives.
pub open spec fn event_targets() -> Seq<Metric> {
    seq![
        Metric::EventTriggerProcessed,
        Metric::EventTriggerPending,
        Metric::EventTriggerFailed,
        Metric::EventTriggerSuccessful,
    ]
}

/// The query kind for a database engine: Postgres and SQL Server are
/// queried, other engines are not.
pub open spec fn query_kind(kind: Seq<char>) -> Option<Seq<char>> {
    if kind == "mssql"@ {
        Some("mssql_run_sql"@)
    } else if kind == "postgres"@ {
        Some("run_sql"@)
    } else {
        None
    }
}

/// The name and query kind of a database that is to be queried.
pub open spec fn source_target(s: DataSource) -> Option<(Seq<char>, Seq<char>)> {
    match (s.name, s.kind) {
        (Some(n), Some(k)) => match query_kind(k@) {
            Some(q) => Some((n@, q)),
            None => None,
        },
        _ => None,
    }
}

/// The databases to query, in the order of the metadata: those with a name
/// and an engine that takes queries.
pub open spec fn planned(sources: Seq<DataSource>) -> Seq<(Seq<char>, Seq<char>)>
    decreases sources.len(),
{
    if sources.len() == 0 {
        seq![]
    } else {
        planned(sources.drop_last()) + match source_target(sources.last()) {
            Some(p) => seq![p],
            None => seq![],
        }
    }
}

/// The view of a planned database.
pub open spec fn database_view(d: EventDatabase) -> (Seq<char>, Seq<char>) {
    (d.name@, d.request_type@)
}

/// The updates of one database's event trigger collection: the normalized
/// answers labelled with the database, or one counted failure.
pub open spec fn event_updates(db: Seq<char>, response: Fetch<Vec<SQLResult>>) -> Seq<UpdateView> {
    match fetched(response) {
        Some(results) => normalized(results@, event_targets(), Some(db)),
        None => seq![error_of("event"@)],
    }
}

/// The bulk request that counts event log entries per trigger and state on
/// one database.
pub fn create_event_trigger_request(request_type: &str, source: &str) -> (r: SQLRequest)
    ensures
        is_bulk_request(r, request_type@, source@, event_sqls()),
{
    let mut sqls: Vec<&str> = Vec::new();
    sqls.push(EVENT_PROCESSED_SQL);
    sqls.push(EVENT_PENDING_SQL);
    sqls.push(EVENT_FAILED_SQL);
    sqls.push(EVENT_SUCCESSFUL_SQL);
    assert(strs_view(sqls@) =~= event_sqls());
    bulk_request(request_type, source, &sqls)
}

/// The gauges that the answers of the event trigger request drive, in order.
pub fn event_trigger_targets() -> (r: Vec<Metric>)
    ensures
        r@ == event_targets(),
{
    let mut t: Vec<Metric> = Vec::new();
    t.push(Metric::EventTriggerProcessed);
    t.push(Metric::EventTriggerPending);
    t.push(Metric::EventTriggerFailed);
    t.push(Metric::EventTriggerSuccessful);
    assert(t@ =~= event_targets());
    t
}

/// The query kind for a database engine, where it takes queries.
pub fn sql_type_for(kind: &str) -> (r: Option<String>)
    ensures
        match r {
            Some(s) => query_kind(kind@) == Some(s@),
            None => query_kind(kind@) is None,
        },
{
    if str_equals(kind, "mssql") {
        Some(String::from_str("mssql_run_sql"))
    } else if str_equals(kind, "postgres") {
        Some(String::from_str("run_sql"))
    } else {
        None
    }
}

/// Picks the databases to query from the exported metadata; metadata
/// without a list of databases is a counted failure.
pub fn check_event_triggers(metadata: &Metadata) -> (r: EventTriggerPlan)
    ensures
        match metadata.sources {
            Some(list) => {
                &&& r.databases@.map_values(|d: EventDatabase| database_view(d)) == planned(list@)
                &&& r.updates@.len() == 0
            },
            None => {
                &&& r.databases@.len() == 0
                &&& updates_view(r.updates@) == seq![error_of("event"@)]
            },
        },
{
    let mut databases: Vec<EventDatabase> = Vec::new();
    let mut updates: Vec<MetricUpdate> = Vec::new();
    match &metadata.sources {
        None => {
            updates.push(MetricUpdate::error("event"));
            assert(updates_view(updates@) =~= seq![error_of("event"@)]);
        },
        Some(list) => {
            let mut i: usize = 0;
            while i < list.len()
                invariant
                    i <= list@.len(),
                    updates@.len() == 0,
                    databases@.map_values(|d: EventDatabase| database_view(d)) == planned(
                        list@.subrange(0, i as int),
                    ),
                decreases list@.len() - i,
            {
                let source = &list[i];
                let ghost before = databases@;
                let ghost pre = list@.subrange(0, i as int + 1);
                proof {
                    assert(pre.drop_last() =~= list@.subrange(0, i as int));
                    assert(pre.last() == list@[i as int]);
                }
                match (&source.name, &source.kind) {
                    (Some(name), Some(kind)) => match sql_type_for(kind.as_str()) {
                        Some(q) => {
                            databases.push(EventDatabase { name: name.clone(), request_type: q });
                            assert(databases@.map_values(|d: EventDatabase| database_view(d))
                                =~= before.map_values(|d: EventDatabase| database_view(d)).push(
                                (name@, q@),
                            ));
                        },
                        None => {
                            assert(planned(pre) =~= planned(list@.subrange(0, i as int)));
                        },
                    },
                    _ => {
                        assert(planned(pre) =~= planned(list@.subrange(0, i as int)));
                    },
                }
                i = i + 1;
            }
            assert(list@.subrange(0, list@.len() as int) =~= list@);
        },
    }
    EventTriggerPlan { databases, updates }
}

/// Turns one database's answer to the event trigger request into updates
/// labelled with the database.
pub fn process_database(db_name: &str, response: Fetch<Vec<SQLResult>>) -> (r: Vec<MetricUpdate>)
    ensures
        updates_view(r@) == event_updates(db_name@, response),
{
    match into_body(response) {
        Some(results) => normalize_results(&results, &event_trigger_targets(), Some(db_name)),
        None => {
            let mut out: Vec<MetricUpdate> = Vec::new();
            out.push(MetricUpdate::error("event"));
            assert(updates_view(out@) =~= seq![error_of("event"@)]);
            out
        },
    }
}

} // verus!
