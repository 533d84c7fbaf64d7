//! Turns what a GraphQL engine reports, through its log stream and its
//! administrative query API, into updates of a fixed set of metrics.
pub mod config;
pub mod cron_triggers;
pub mod event_triggers;
pub mod fetch;
pub mod health;
pub mod logprocessor;
pub mod logreader;
pub mod metadata;
pub mod metric;
pub mod scheduled_events;
pub mod scheduler;
pub mod sql;
pub mod text;
pub mod util;
