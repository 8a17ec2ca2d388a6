//! A dynamic-DNS client library: it reconciles one DNS record on a
//! Cloudflare-style provider with the machine's current public IP address.
//!
//! The library holds every decision the updater makes — computing the
//! registrable domain, picking the zone and record out of the provider's
//! lists, building create/update requests, classifying provider failures,
//! and driving the run as a state machine — as verified functions over
//! plain values. The surrounding binary performs the HTTP calls and hands
//! the responses in.

pub mod api;
pub mod client;
mod clock;
pub mod domain;
pub mod flow;
pub mod ip;
pub mod text;

pub use api::{ApiError, ClientError, DnsRecord, RecordRequest, RecordType, Zone};
pub use client::Cloudflare;
pub use domain::registrable_domain;
pub use text::decimal_string;
