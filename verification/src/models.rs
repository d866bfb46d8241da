pub mod condition;
pub mod join;
pub mod plan_node;
pub mod query;
pub mod result_set;
pub mod row;
pub mod shard_distribution;
pub mod shard_info;
pub mod shard_key;
