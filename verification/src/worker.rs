pub mod data_store;
pub mod query_executor;
pub mod state;
pub mod worker_service;
