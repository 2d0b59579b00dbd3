//! Verified core of the BIQ (Bharat Intel Quantum) research backend: input
//! validation, keyword-driven classification of threat queries, the
//! anomaly and alert decision rules, scheduling and quota arithmetic, and
//! the text processing that surrounds provider responses.

pub mod alert_mode;
pub mod anomaly;
pub mod auth;
pub mod error;
pub mod ingest;
pub mod keys;
pub mod models;
pub mod numbers;
pub mod rate_limit;
pub mod scheduler;
pub mod settings;
pub mod social;
pub mod text;
pub mod validation;
pub mod priority;
pub mod query_router;
pub mod feeds;
pub mod news;
pub mod reports;
pub mod osint;
pub mod context;
pub mod llm;
pub mod fusion;
pub mod intel;
pub mod maritime;
pub mod quantum;
pub mod sanctions;
pub mod geo;
pub mod borders;
pub mod satellite;
pub mod graph;
pub mod config;
pub mod ids;
