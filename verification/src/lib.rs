//! Sentry-compatible error ingestion: payload model, issue grouping, envelope
//! framing, and the issue-table rules, with their contracts proved by Verus.

pub mod api;
pub mod envelope;
pub mod event;
pub mod grouping;
pub mod issues;
pub mod payload;
pub mod schema;
pub mod text;
pub mod timestamp;
