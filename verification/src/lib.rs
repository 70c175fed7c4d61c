//! Verified core of a chunk store: object-store policy, local chunk pool, telemetry.

pub mod azure;
pub mod azure_laws;
pub mod backend_check;
pub mod budget;
pub mod budget_laws;
pub mod cache_call_laws;
pub mod caching;
pub mod caching_laws;
pub mod check_laws;
pub mod chunk_laws;
pub mod compression;
pub mod config;
pub mod config_error;
pub mod config_laws;
pub mod disk_cache_size;
pub mod error;
pub mod failure;
pub mod failure_laws;
pub mod gcs;
pub mod gcs_laws;
pub mod ghost;
pub mod ghost_laws;
pub mod hash;
pub mod helpers;
pub mod instrument_laws;
pub mod instruments;
pub mod live_stats;
pub mod local;
pub mod local_laws;
pub mod lock;
pub mod lru_model;
pub mod message_laws;
pub mod object_laws;
pub mod objects;
pub mod pins;
pub mod pool;
pub mod pool_laws;
pub mod record;
pub mod report_laws;
pub mod retry_laws;
pub mod s3;
pub mod s3_laws;
pub mod scan;
pub mod stats_laws;
pub mod table;
pub mod telemetry;
pub mod telemetry_laws;
pub mod text;
pub mod text_laws;
