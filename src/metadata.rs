use vstd::prelude::*;

use std::collections::HashMap;

use crate::event_triggers::{DataSource, Metadata};
use crate::fetch::{Fetch, fetched, into_body};
use crate::metric::{Metric, MetricOp, MetricUpdate, UpdateView, error_of, updates_view, upd};
use vstd::string::StringExecFns;

verus! {

/// A JSON value of serde_json, carried through unread.
#[verifier::external_type_specification]
#[verifier::external_body]
pub struct ExJsonValue(serde_json::Value);

/// The request for the list of inconsistent metadata objects.
pub struct MetadataCheckRequest {
    pub request_type: String,
    pub args: HashMap<String, serde_json::Value>,
}

impl MetadataCheckRequest {
    /// The request, with no arguments.
    pub fn get_inconsistent_metadata() -> (r: Self)
        ensures
            r.request_type@ == "get_inconsistent_metadata"@,
            r.args@.len() == 0,
    {
        MetadataCheckRequest {
            request_type: String::from_str("get_inconsistent_metadata"),
            args: HashMap::new(),
        }
    }
}

/// The answer to the consistency request.
#[derive(Clone, Copy, Debug)]
pub struct MetadataCheckResponse {
    pub is_consistent: bool,
}

/// The request to export the metadata, in its second format version.
pub struct MetadataExportRequest {
    pub request_type: String,
    pub version: i32,
    pub args: HashMap<String, serde_json::Value>,
}

impl MetadataExportRequest {
    /// The request, with no arguments.
    pub fn export_metadata() -> (r: Self)
        ensures
            r.request_type@ == "export_metadata"@,
            r.version == 2,
            r.args@.len() == 0,
    {
        MetadataExportRequest {
            request_type: String::from_str("export_metadata"),
            version: 2,
            args: HashMap::new(),
        }
    }
}

/// The answer of the version endpoint.
#[derive(Clone, Debug)]
pub struct VersionResponse {
    pub version: String,
}

/// The updates after a version request: the version vector is cleared and
/// the reported version alone set to 1; a call without a usable answer is a
/// counted failure and leaves the vector as it was.
pub open spec fn version_updates(response: Fetch<VersionResponse>) -> Seq<UpdateView> {
    match fetched(response) {
        Some(v) => seq![
            upd(Metric::MetadataVersion, seq![], MetricOp::Reset),
            upd(Metric::MetadataVersion, seq![v.version@], MetricOp::SetTo(1)),
        ],
        None => seq![error_of("version"@)],
    }
}

/// Whether the consistency answer says the metadata is consistent.
pub open spec fn consistency_of(response: Fetch<MetadataCheckResponse>) -> bool {
    match fetched(response) {
        Some(c) => c.is_consistent,
        None => false,
    }
}

/// The updates after a consistency request: the gauge set to 1 or 0, or a
/// counted failure.
pub open spec fn consistency_updates(response: Fetch<MetadataCheckResponse>) -> Seq<UpdateView> {
    match fetched(response) {
        Some(c) => seq![
            upd(
                Metric::MetadataConsistency,
                seq![],
                MetricOp::SetTo(if c.is_consistent { 1 } else { 0 }),
            ),
        ],
        None => seq![error_of("metadata"@)],
    }
}

/// Turns the answer of the version endpoint into updates.
pub fn fetch_version(response: Fetch<VersionResponse>) -> (r: Vec<MetricUpdate>)
    ensures
        updates_view(r@) == version_updates(response),
{
    let mut out: Vec<MetricUpdate> = Vec::new();
    match into_body(response) {
        Some(v) => {
            out.push(MetricUpdate::plain(Metric::MetadataVersion, MetricOp::Reset));
            out.push(
                MetricUpdate::labelled(Metric::MetadataVersion, v.version.as_str(), MetricOp::SetTo(1)),
            );
        },
        None => {
            out.push(MetricUpdate::error("version"));
        },
    }
    assert(updates_view(out@) =~= version_updates(response));
    out
}

/// Turns the answer to the consistency request into whether the metadata is
/// consistent, and updates.
pub fn fetch_metadata_consistency(response: Fetch<MetadataCheckResponse>) -> (r: (
    bool,
    Vec<MetricUpdate>,
))
    ensures
        r.0 == consistency_of(response),
        updates_view(r.1@) == consistency_updates(response),
{
    let mut out: Vec<MetricUpdate> = Vec::new();
    let consistent = match into_body(response) {
        Some(c) => {
            let v: i64 = if c.is_consistent { 1 } else { 0 };
            out.push(MetricUpdate::plain(Metric::MetadataConsistency, MetricOp::SetTo(v)));
            c.is_consistent
        },
        None => {
            out.push(MetricUpdate::error("metadata"));
            false
        },
    };
    assert(updates_view(out@) =~= consistency_updates(response));
    (consistent, out)
}

/// Turns the answer to the export request into the metadata read from it;
/// a call without a usable answer gives metadata without a list of
/// databases, and a counted failure.
pub fn fetch_metadata(response: Fetch<Metadata>) -> (r: (Metadata, Vec<MetricUpdate>))
    ensures
        match fetched(response) {
            Some(m) => r.0 == m && r.1@.len() == 0,
            None => r.0.sources is None && updates_view(r.1@) == seq![error_of("metadata"@)],
        },
{
    let mut out: Vec<MetricUpdate> = Vec::new();
    match into_body(response) {
        Some(m) => (m, out),
        None => {
            out.push(MetricUpdate::error("metadata"));
            assert(updates_view(out@) =~= seq![error_of("metadata"@)]);
            (Metadata { sources: None }, out)
        },
    }
}

/// Metadata with an empty list of databases.
fn no_databases() -> (r: Metadata)
    ensures
        r.sources is Some,
        r.sources.unwrap()@.len() == 0,
{
    let empty: Vec<DataSource> = Vec::new();
    Metadata { sources: Some(empty) }
}

/// Decides the metadata that the event trigger collection of a round works
/// from. `consistency` is the outcome of the consistency check, `None` where
/// it did not run; `export` is the answer to the export request, `None`
/// where none was made. Metadata found inconsistent is a counted failure;
/// the metadata of a consistent round is read from the export; in every
/// other case the list of databases is empty and nothing is counted.
pub fn check_metadata(consistency: Option<bool>, export: Option<Fetch<Metadata>>) -> (r: (
    Metadata,
    Vec<MetricUpdate>,
))
    ensures
        consistency == Some(true) && export is Some ==> match fetched(export.unwrap()) {
            Some(m) => r.0 == m && r.1@.len() == 0,
            None => r.0.sources is None && updates_view(r.1@) == seq![error_of("metadata"@)],
        },
        consistency == Some(false) ==> {
            &&& r.0.sources is Some
            &&& r.0.sources.unwrap()@.len() == 0
            &&& updates_view(r.1@) == seq![error_of("metadata"@)]
        },
        consistency is None || (consistency == Some(true) && export is None) ==> {
            &&& r.0.sources is Some
            &&& r.0.sources.unwrap()@.len() == 0
            &&& r.1@.len() == 0
        },
{
    match (consistency, export) {
        (Some(true), Some(f)) => fetch_metadata(f),
        (Some(false), _) => {
            let mut out: Vec<MetricUpdate> = Vec::new();
            out.push(MetricUpdate::error("metadata"));
            assert(updates_view(out@) =~= seq![error_of("metadata"@)]);
            (no_databases(), out)
        },
        _ => (no_databases(), Vec::new()),
    }
}

} // verus!
