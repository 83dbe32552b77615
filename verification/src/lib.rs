//! The verified core of the Pica platform's API, client and watchdog: the
//! records they exchange, how listings are filtered, how connections are keyed,
//! created and changed, and the decisions of the background loops.
pub mod available_connectors;
pub mod background;
pub mod cli;
pub mod common;
pub mod connection;
pub mod connection_definition;
pub mod connection_details;
pub mod connection_ops;
pub mod constants;
pub mod definition_requests;
pub mod entries;
pub mod error;
pub mod event_access;
pub mod filter;
pub mod headers;
pub mod k8s;
pub mod keys;
pub mod listing;
pub mod metrics;
pub mod string_map;
pub mod text;
pub mod tracking;
pub mod watchdog;
