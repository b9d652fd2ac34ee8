//! Verified core of a client for the Gemini generative language API.
//!
//! The library holds the decision logic of the client: request validation,
//! configuration builders, stream control, failover endpoint selection,
//! metrics bookkeeping and health evaluation. Network and timer plumbing
//! lives in the companion `app` crate.

pub mod error;
pub mod text;
pub mod pairs;
pub mod float_bits;
pub mod dynamic_config;
pub mod versioning;
pub mod config_history;
pub mod config_sources;
pub mod hot_reload;
pub mod model_tuning;
pub mod auto_scaling;
pub mod batch;
pub mod retry;
pub mod websocket_optimized;
pub mod semantic_retrieval;
pub mod retrieval_cache;
pub mod vector_index;
pub mod retrieval_api;
pub mod chat;
pub mod media;
pub mod media_cache;
pub mod media_pipeline;
pub mod time;
pub mod streaming_control;
pub mod types;
pub mod client;
pub mod validation;
pub mod templates;
pub mod websocket_streaming;
pub mod failover;
pub mod clock;
pub mod deployment;
pub mod config;
pub mod config_sync;
pub mod config_manager;
pub mod websocket;
pub mod websocket_sessions;
pub mod websocket_api;
