use vstd::prelude::*;

use crate::text::strings_view;
use vstd::string::StringExecFns;

verus! {

/// The metrics that the engine drives in the sink.
#[derive(Clone, Copy, Debug, PartialEq, Eq, Structural)]
pub enum Metric {
    /// Counter of failures, labelled by collector.
    ErrorsTotal,
    /// Cron trigger gauges, labelled by trigger name.
    CronTriggerPending,
    CronTriggerProcessed,
    CronTriggerSuccessful,
    CronTriggerFailed,
    /// Event trigger gauges, labelled by trigger name and database.
    EventTriggerPending,
    EventTriggerProcessed,
    EventTriggerSuccessful,
    EventTriggerFailed,
    /// Gauge of the upstream health check: 1 healthy, 0 not.
    HealthCheck,
    /// Gauge of metadata consistency: 1 consistent, 0 not.
    MetadataConsistency,
    /// Gauge vector labelled by version; exactly one label is set to 1.
    MetadataVersion,
    /// Scheduled event gauges, without labels.
    ScheduledEventsPending,
    ScheduledEventsProcessed,
    ScheduledEventsSuccessful,
    ScheduledEventsFailed,
    /// Gauge of open websocket connections.
    ActiveWebsocket,
    /// Gauge of running websocket operations.
    ActiveWebsocketOperations,
    /// Counter of finished websocket operations, by operation and error code.
    WebsocketOperations,
    /// Counter of all log lines read.
    LogLinesTotal,
    /// Counter of parsed log lines, by log type.
    LogLines,
    /// Counter of HTTP requests, by url and status code.
    RequestCounter,
    /// Counter of GraphQL operations, by operation name and error code.
    RequestQueryCounter,
    /// Histogram of query execution times, by operation name and error code.
    QueryExecutionTimes,
}

/// What an update does to its metric.
#[derive(Clone, Copy, Debug, PartialEq, Eq, Structural)]
pub enum MetricOp {
    /// Set a gauge to a value.
    SetTo(i64),
    /// Add one.
    Inc,
    /// Subtract one.
    Dec,
    /// Record into a histogram the duration that came with the log line.
    Observe,
    /// Clear every label of a vector.
    Reset,
}

/// One update to apply to the sink: a metric, its label values in order, and
/// an operation.
#[derive(Clone, Debug, PartialEq, Eq)]
pub struct MetricUpdate {
    pub metric: Metric,
    pub labels: Vec<String>,
    pub op: MetricOp,
}

/// The mathematical value of a `MetricUpdate`.
pub struct UpdateView {
    pub metric: Metric,
    pub labels: Seq<Seq<char>>,
    pub op: MetricOp,
}

impl View for MetricUpdate {
    type V = UpdateView;

    open spec fn view(&self) -> UpdateView {
        UpdateView { metric: self.metric, labels: strings_view(self.labels@), op: self.op }
    }
}

/// The views of a sequence of updates.
pub open spec fn updates_view(v: Seq<MetricUpdate>) -> Seq<UpdateView> {
    v.map_values(|u: MetricUpdate| u@)
}

/// An update with the given fields.
pub open spec fn upd(metric: Metric, labels: Seq<Seq<char>>, op: MetricOp) -> UpdateView {
    UpdateView { metric, labels, op }
}

/// The update that counts one failure of the named collector.
pub open spec fn error_of(collector: Seq<char>) -> UpdateView {
    upd(Metric::ErrorsTotal, seq![collector], MetricOp::Inc)
}

impl MetricUpdate {
    /// An update without labels.
    pub fn plain(metric: Metric, op: MetricOp) -> (r: MetricUpdate)
        ensures
            r@ == upd(metric, seq![], op),
    {
        let r = MetricUpdate { metric, labels: Vec::new(), op };
        assert(r@.labels =~= Seq::<Seq<char>>::empty());
        r
    }

    /// An update with one label.
    pub fn labelled(metric: Metric, label: &str, op: MetricOp) -> (r: MetricUpdate)
        ensures
            r@ == upd(metric, seq![label@], op),
    {
        let mut labels: Vec<String> = Vec::new();
        labels.push(String::from_str(label));
        let r = MetricUpdate { metric, labels, op };
        assert(r@.labels =~= seq![label@]);
        r
    }

    /// An update with two labels.
    pub fn labelled2(metric: Metric, first: &str, second: &str, op: MetricOp) -> (r: MetricUpdate)
        ensures
            r@ == upd(metric, seq![first@, second@], op),
    {
        let mut labels: Vec<String> = Vec::new();
        labels.push(String::from_str(first));
        labels.push(String::from_str(second));
        let r = MetricUpdate { metric, labels, op };
        assert(r@.labels =~= seq![first@, second@]);
        r
    }

    /// One more failure of the named collector.
    pub fn error(collector: &str) -> (r: MetricUpdate)
        ensures
            r@ == error_of(collector@),
    {
        MetricUpdate::labelled(Metric::ErrorsTotal, collector, MetricOp::Inc)
    }
}

} // verus!
