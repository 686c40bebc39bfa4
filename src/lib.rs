//! A session-scoped catalog of fish records kept in an embedded SQLite
//! database.
//!
//! Every anonymous session owns a private copy of the template fish; all
//! reads and writes through a [`SessionStore`] are confined to that copy.
pub mod clock;
pub mod db;
pub mod error;
pub mod fish;
pub mod laws;
pub mod query;
pub mod rows;
pub mod store;

pub use clock::{SESSION_TTL_SECONDS, TIMESTAMP_MAX_SECOND, TIMESTAMP_MIN_SECOND};
pub use error::{ErrorDetail, StoreError};
pub use fish::{
    apply_update, CreateFishRequest, Fish, FishId, LoginResponse, SessionId, UpdateFishRequest,
    WeightKg,
};
pub use query::{group_query_parameters, QueryParameterValue};
pub use store::{seed_fish, SessionStore, Store};
