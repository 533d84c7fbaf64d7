use vstd::prelude::*;

use crate::metric::{Metric, MetricOp, MetricUpdate, UpdateView, updates_view, upd};
use vstd::string::StringExecFns;
use crate::text::{count_of, parse_count, parsed_i64, str_equals, trimmed};

verus! {

/// A bulk request: several queries sent in one call, answered in order.
#[derive(Clone, Debug)]
pub struct SQLRequest {
    pub request_type: String,
    pub args: Vec<RunSQLQuery>,
}

/// One query of a bulk request.
#[derive(Clone, Debug)]
pub struct RunSQLQuery {
    pub request_type: String,
    pub args: RunSQLArgs,
}

/// The arguments of one query.
#[derive(Clone, Debug)]
pub struct RunSQLArgs {
    pub cascade: bool,
    pub read_only: bool,
    pub sql: String,
    pub source: String,
}

/// The answer to one query: its status, and its rows with a header first.
#[derive(Clone, Debug)]
pub struct SQLResult {
    pub result_type: String,
    pub result: Option<Vec<SQLResultItem>>,
}

/// A row as the upstream engine renders it: a count as a number or as text,
/// with a label, or a lone count wrapped in an array.
#[derive(Clone, Debug)]
pub enum SQLResultItem {
    IntStr(i64, String),
    StrStr(String, String),
    Str(Vec<String>),
    Int(Vec<i64>),
}

/// The status of a successful tabular answer.
pub open spec fn tuples_ok() -> Seq<char> {
    seq!['T', 'u', 'p', 'l', 'e', 's', 'O', 'k']
}

/// The canonical form of a row: its count, and its label where it has one.
/// A lone count is read only where the array holds exactly one value.
pub open spec fn entry_value(e: SQLResultItem) -> (i64, Option<Seq<char>>) {
    match e {
        SQLResultItem::IntStr(v, l) => (v, Some(l@)),
        SQLResultItem::StrStr(c, l) => (count_of(c@), Some(l@)),
        SQLResultItem::Str(v) => (if v@.len() == 1 {
            count_of(v@[0]@)
        } else {
            0
        }, None),
        SQLResultItem::Int(v) => (if v@.len() == 1 {
            v@[0]
        } else {
            0
        }, None),
    }
}

/// Whether a metric carries a label per row (the trigger name).
pub open spec fn labelled(m: Metric) -> bool {
    match m {
        Metric::CronTriggerPending
        | Metric::CronTriggerProcessed
        | Metric::CronTriggerSuccessful
        | Metric::CronTriggerFailed
        | Metric::EventTriggerPending
        | Metric::EventTriggerProcessed
        | Metric::EventTriggerSuccessful
        | Metric::EventTriggerFailed => true,
        _ => false,
    }
}

/// The view of an optional text.
pub open spec fn opt_view(o: Option<&str>) -> Option<Seq<char>> {
    match o {
        Some(s) => Some(s@),
        None => None,
    }
}

/// The update that one data row gives for a target metric: its count set
/// under its label (empty where it has none) and, for a per-database
/// collection, the database name; or, for a metric without labels, the
/// count alone.
pub open spec fn row_update(target: Metric, e: SQLResultItem, db: Option<Seq<char>>) -> UpdateView {
    let (v, l) = entry_value(e);
    let label = match l {
        Some(s) => s,
        None => Seq::<char>::empty(),
    };
    if labelled(target) {
        match db {
            Some(d) => upd(target, seq![label, d], MetricOp::SetTo(v)),
            None => upd(target, seq![label], MetricOp::SetTo(v)),
        }
    } else {
        upd(target, seq![], MetricOp::SetTo(v))
    }
}

/// The updates of a sequence of data rows, one each.
pub open spec fn rows_updates(rows: Seq<SQLResultItem>, target: Metric, db: Option<Seq<char>>) -> Seq<
    UpdateView,
> {
    rows.map_values(|e: SQLResultItem| row_update(target, e, db))
}

/// The updates that one answer gives: one per row after the header where the
/// answer succeeded and has a target; none otherwise.
pub open spec fn result_updates(
    q: SQLResult,
    target: Option<Metric>,
    db: Option<Seq<char>>,
) -> Seq<UpdateView> {
    match target {
        None => seq![],
        Some(m) => if q.result_type@ == tuples_ok() && q.result is Some
            && q.result.unwrap()@.len() > 0 {
            rows_updates(q.result.unwrap()@.skip(1), m, db)
        } else {
            seq![]
        },
    }
}

/// The target of the answer at position `i`, where the mapping has one.
pub open spec fn target_at(targets: Seq<Metric>, i: int) -> Option<Metric> {
    if 0 <= i < targets.len() {
        Some(targets[i])
    } else {
        None
    }
}

/// The updates of a whole bulk answer: those of each answer in turn, each
/// against the target of its position.
pub open spec fn normalized(
    results: Seq<SQLResult>,
    targets: Seq<Metric>,
    db: Option<Seq<char>>,
) -> Seq<UpdateView>
    decreases results.len(),
{
    if results.len() == 0 {
        seq![]
    } else {
        normalized(results.drop_last(), targets, db) + result_updates(
            results.last(),
            target_at(targets, results.len() - 1),
            db,
        )
    }
}

/// Whether a metric carries a label per row.
pub fn is_labelled(m: Metric) -> (r: bool)
    ensures
        r == labelled(m),
{
    match m {
        Metric::CronTriggerPending
        | Metric::CronTriggerProcessed
        | Metric::CronTriggerSuccessful
        | Metric::CronTriggerFailed
        | Metric::EventTriggerPending
        | Metric::EventTriggerProcessed
        | Metric::EventTriggerSuccessful
        | Metric::EventTriggerFailed => true,
        _ => false,
    }
}

/// Reduces a row of any shape to its count and its label.
pub fn get_sql_entry_value(entry: &SQLResultItem) -> (r: (i64, Option<String>))
    ensures
        r.0 == entry_value(*entry).0,
        match r.1 {
            Some(s) => entry_value(*entry).1 == Some(s@),
            None => entry_value(*entry).1 is None,
        },
{
    match entry {
        SQLResultItem::IntStr(value, trigger_name) => (*value, Some(trigger_name.clone())),
        SQLResultItem::StrStr(count, trigger_name) => (
            parse_count(count.as_str()),
            Some(trigger_name.clone()),
        ),
        SQLResultItem::Str(vect) => {
            let count = if vect.len() == 1 {
                parse_count(vect[0].as_str())
            } else {
                0
            };
            (count, None)
        },
        SQLResultItem::Int(vect) => {
            let count = if vect.len() == 1 {
                vect[0]
            } else {
                0
            };
            (count, None)
        },
    }
}

/// The update for one data row.
pub fn row_to_update(target: Metric, entry: &SQLResultItem, db_name: Option<&str>) -> (r:
    MetricUpdate)
    ensures
        r@ == row_update(target, *entry, opt_view(db_name)),
{
    let (value, label) = get_sql_entry_value(entry);
    let label: String = match label {
        Some(s) => s,
        None => String::new(),
    };
    if is_labelled(target) {
        match db_name {
            Some(db) => MetricUpdate::labelled2(target, label.as_str(), db, MetricOp::SetTo(value)),
            None => MetricUpdate::labelled(target, label.as_str(), MetricOp::SetTo(value)),
        }
    } else {
        MetricUpdate::plain(target, MetricOp::SetTo(value))
    }
}

/// The updates that one answer gives for its target: none where no target
/// matches its position or it did not succeed; else one per data row, the
/// header row skipped.
pub fn process_sql_result(query: &SQLResult, target: Option<Metric>, db_name: Option<&str>) -> (r:
    Vec<MetricUpdate>)
    ensures
        updates_view(r@) == result_updates(*query, target, opt_view(db_name)),
{
    let mut out: Vec<MetricUpdate> = Vec::new();
    let metric = match target {
        Some(m) => m,
        None => {
            assert(updates_view(out@) =~= seq![]);
            return out;
        },
    };
    proof {
        reveal_strlit("TuplesOk");
        assert("TuplesOk"@ =~= tuples_ok());
    }
    if !str_equals(query.result_type.as_str(), "TuplesOk") {
        assert(updates_view(out@) =~= seq![]);
        return out;
    }
    let rows = match &query.result {
        Some(rows) => rows,
        None => {
            assert(updates_view(out@) =~= seq![]);
            return out;
        },
    };
    if rows.len() == 0 {
        assert(updates_view(out@) =~= seq![]);
        return out;
    }
    let ghost db = opt_view(db_name);
    let mut j: usize = 1;
    while j < rows.len()
        invariant
            1 <= j <= rows@.len(),
            db == opt_view(db_name),
            updates_view(out@) =~= rows_updates(rows@.subrange(1, j as int), metric, db),
        decreases rows@.len() - j,
    {
        let u = row_to_update(metric, &rows[j], db_name);
        let ghost before = out@;
        out.push(u);
        assert(updates_view(out@) =~= updates_view(before).push(u@));
        assert(rows@.subrange(1, j + 1) =~= rows@.subrange(1, j as int).push(rows@[j as int]));
        assert(rows_updates(rows@.subrange(1, j + 1), metric, db) =~= rows_updates(
            rows@.subrange(1, j as int),
            metric,
            db,
        ).push(row_update(metric, rows@[j as int], db)));
        j = j + 1;
    }
    assert(rows@.skip(1) =~= rows@.subrange(1, rows@.len() as int));
    out
}

/// Normalizes a bulk answer against the targets of its positions: the
/// answer at position `i` drives `targets[i]` (for one database, where
/// `db_name` is given), and an answer beyond the targets drives nothing.
pub fn normalize_results(
    results: &Vec<SQLResult>,
    targets: &Vec<Metric>,
    db_name: Option<&str>,
) -> (r: Vec<MetricUpdate>)
    ensures
        updates_view(r@) == normalized(results@, targets@, opt_view(db_name)),
{
    let mut out: Vec<MetricUpdate> = Vec::new();
    let mut i: usize = 0;
    while i < results.len()
        invariant
            i <= results@.len(),
            updates_view(out@) == normalized(
                results@.subrange(0, i as int),
                targets@,
                opt_view(db_name),
            ),
        decreases results@.len() - i,
    {
        let target = if i < targets.len() {
            Some(targets[i])
        } else {
            None
        };
        let mut part = process_sql_result(&results[i], target, db_name);
        let ghost before = out@;
        let ghost added = part@;
        out.append(&mut part);
        proof {
            let pre = results@.subrange(0, i as int + 1);
            assert(pre.drop_last() =~= results@.subrange(0, i as int));
            assert(pre.last() == results@[i as int]);
            assert(updates_view(before + added) =~= updates_view(before) + updates_view(added));
        }
        i = i + 1;
    }
    assert(results@.subrange(0, results@.len() as int) =~= results@);
    out
}

/// Whether a request bundles, in order, one read-only, non-cascading query
/// of the given kind on the given source for each text of `sqls`.
pub open spec fn is_bulk_request(
    r: SQLRequest,
    kind: Seq<char>,
    source: Seq<char>,
    sqls: Seq<Seq<char>>,
) -> bool {
    &&& r.request_type@ == "bulk"@
    &&& r.args@.len() == sqls.len()
    &&& forall|i: int|
        0 <= i < sqls.len() ==> {
            let q = #[trigger] r.args@[i];
            &&& q.request_type@ == kind
            &&& q.args.source@ == source
            &&& q.args.sql@ == sqls[i]
            &&& !q.args.cascade
            &&& q.args.read_only
        }
}

/// The views of a sequence of string slices.
pub open spec fn strs_view(v: Seq<&str>) -> Seq<Seq<char>> {
    v.map_values(|s: &str| s@)
}

/// A bulk request of read-only queries of one kind on one source, in the
/// order given.
pub fn bulk_request(kind: &str, source: &str, sqls: &Vec<&str>) -> (r: SQLRequest)
    ensures
        is_bulk_request(r, kind@, source@, strs_view(sqls@)),
{
    let mut args: Vec<RunSQLQuery> = Vec::new();
    let mut i: usize = 0;
    while i < sqls.len()
        invariant
            i <= sqls@.len(),
            args@.len() == i,
            forall|k: int|
                0 <= k < i ==> {
                    let q = #[trigger] args@[k];
                    &&& q.request_type@ == kind@
                    &&& q.args.source@ == source@
                    &&& q.args.sql@ == sqls@[k]@
                    &&& !q.args.cascade
                    &&& q.args.read_only
                },
        decreases sqls@.len() - i,
    {
        let q = RunSQLQuery {
            request_type: String::from_str(kind),
            args: RunSQLArgs {
                cascade: false,
                read_only: true,
                sql: String::from_str(sqls[i]),
                source: String::from_str(source),
            },
        };
        args.push(q);
        i = i + 1;
    }
    SQLRequest { request_type: String::from_str("bulk"), args }
}

/// A count rendered as text reads as the integer that the trimmed text
/// spells, and as zero where it spells none; either way every data row of
/// the answer still gives its own update.
pub proof fn law_text_count_reads_exactly(q: SQLResult, m: Metric, db: Option<Seq<char>>, k: int)
    requires
        q.result_type@ == tuples_ok(),
        q.result is Some,
        1 <= k < q.result.unwrap()@.len(),
        q.result.unwrap()@[k] is StrStr,
    ensures
        result_updates(q, Some(m), db).len() == q.result.unwrap()@.len() - 1,
        result_updates(q, Some(m), db)[k - 1].op == MetricOp::SetTo(
            match parsed_i64(trimmed(q.result.unwrap()@[k]->StrStr_0@)) {
                Some(v) => v,
                None => 0,
            },
        ),
{
    let rows = q.result.unwrap()@;
    assert(rows.skip(1)[k - 1] == rows[k]);
}

/// The header row never gives an update: an answer that succeeded gives
/// exactly one update per row after the first, in order, whatever its
/// number of rows, and any other answer gives none.
pub proof fn law_header_row_skipped(q: SQLResult, m: Metric, db: Option<Seq<char>>)
    ensures
        ({
            let u = result_updates(q, Some(m), db);
            if q.result_type@ == tuples_ok() && q.result is Some && q.result.unwrap()@.len() > 0 {
                let rows = q.result.unwrap()@;
                &&& u.len() == rows.len() - 1
                &&& forall|k: int| 0 <= k < u.len() ==> u[k] == row_update(m, rows[k + 1], db)
            } else {
                u.len() == 0
            }
        }),
{
    if q.result_type@ == tuples_ok() && q.result is Some && q.result.unwrap()@.len() > 0 {
        let rows = q.result.unwrap()@;
        assert forall|k: int| 0 <= k < rows.len() - 1 implies rows.skip(1)[k] == rows[k + 1] by {}
    }
}

/// An answer at a position that the target mapping does not cover gives no
/// update: the whole answer normalizes as its covered prefix does.
pub proof fn law_unmapped_positions_give_nothing(
    results: Seq<SQLResult>,
    targets: Seq<Metric>,
    db: Option<Seq<char>>,
)
    requires
        targets.len() <= results.len(),
    ensures
        normalized(results, targets, db) == normalized(
            results.subrange(0, targets.len() as int),
            targets,
            db,
        ),
    decreases results.len(),
{
    if results.len() == targets.len() {
        assert(results.subrange(0, targets.len() as int) =~= results);
    } else {
        let pre = results.drop_last();
        law_unmapped_positions_give_nothing(pre, targets, db);
        assert(pre.subrange(0, targets.len() as int) =~= results.subrange(0, targets.len() as int));
        assert(result_updates(results.last(), target_at(targets, results.len() - 1), db) =~= seq![]);
        assert(normalized(results, targets, db) =~= normalized(pre, targets, db));
    }
}

/// Normalizing is a function of its input: the same answers, targets and
/// database give the same updates, in the same order, every time.
pub proof fn law_normalize_repeatable(
    first: Seq<SQLResult>,
    second: Seq<SQLResult>,
    targets: Seq<Metric>,
    db: Option<Seq<char>>,
)
    requires
        first == second,
    ensures
        normalized(first, targets, db) == normalized(second, targets, db),
{
}

} // verus!
