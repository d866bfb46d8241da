pub mod logger;
pub mod tracer;
