//! Verified decision logic of the Portus runtime: the task lifecycle, the
//! significant-event log, schema migration planning, secret screening, the
//! in-memory event hub, index reconciliation, artifact rules, visual-fallback
//! checks and the runtime request surface.
pub mod text;
pub mod ids;
pub mod task;
pub mod engine;
pub mod migration;
pub mod safety;
pub mod json;
pub mod event_log;
pub mod event_hub;
pub mod index;
pub mod artifact;
pub mod visual;
pub mod visual_flow;
pub mod runtime;
pub mod health;
pub mod stream;
pub mod provider;
pub mod provider_index;
pub mod provider_refs;
pub mod index_query;
