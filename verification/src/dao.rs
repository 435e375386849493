//! Storage for pastes: the repository contract and its in-memory backend.

pub mod inmemory;
pub mod repository;

pub use inmemory::InMemoryRepository;
pub use repository::Repository;
pub use repository::RepositoryError;
