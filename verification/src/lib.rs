//! Premium-key licensing, per-user configuration sync and cape lookup for
//! the Aegis client: the records the service keeps and every decision it
//! takes on them, with their contracts.

pub mod ids;
pub mod json;
pub mod laws;
pub mod lookup;
pub mod models;
pub mod routes;
pub mod store;
pub mod time;

pub use models::{
    AdminStats, ApiError, CapeEntry, CreateKeyRequest, CreateKeyResponse, KeyListEntry,
    PremiumKey, SyncConfigRequest, UpdateInfo, UserConfig, ValidateKeyRequest,
    ValidateKeyResponse,
};
pub use time::Timestamp;
