//! A small user-record library: user values with roles and metadata, a
//! map-backed in-memory repository behind a `Repository` trait, error values
//! with rendered messages, and the cache-side pieces of a simulated fetch.

pub mod error;
pub mod fetch;
pub mod repo;
pub mod text;
pub mod user;

pub use error::AppError;
pub use repo::{InMemoryRepository, Repository};
pub use user::{User, UserRole};
