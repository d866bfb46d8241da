pub mod system_client;
pub mod visualizer;
