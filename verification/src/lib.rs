//! The core of a small distributed query engine: a coordinator's table of
//! workers with its health sweep, the routing of rows to shards, and the
//! predicates that filter rows; around them the data models, the sample
//! data of the workers, and what the client and the dashboard show.
//!
//! Times are whole milliseconds since the start of 1970 unless said
//! otherwise. Numbers with fractions are carried as the bits of 64-bit
//! floats and are read and written outside this library.

pub mod client;
pub mod clock;
pub mod coordinator;
pub mod ident;
pub mod models;
pub mod str_map;
pub mod text;
pub mod utils;
pub mod visualizer;
pub mod worker;
