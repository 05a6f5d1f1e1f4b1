//! The operation layer: one thin controller per server-side controller,
//! each dispatching through the facade handed to it.

pub mod auth;
pub mod bulk;
pub mod collection;
pub mod document;
pub mod index;
pub mod memory_storage;
pub mod realtime;
pub mod security;
pub mod server;

pub use self::auth::AuthController;
pub use self::bulk::BulkController;
pub use self::collection::CollectionController;
pub use self::document::DocumentController;
pub use self::index::IndexController;
pub use self::memory_storage::MemoryStorageController;
pub use self::realtime::RealtimeController;
pub use self::security::SecurityController;
pub use self::server::ServerController;
