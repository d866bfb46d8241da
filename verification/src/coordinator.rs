pub mod coordinator_service;
pub mod query_planner;
pub mod shard_manager;
pub mod state;
