pub mod impact;
pub mod symbols;
pub mod planner;
pub mod snapshot;
pub mod buffers;
pub mod watch;
pub mod repo;
pub mod semantic;
pub mod status;
pub mod errors;
pub mod config;
pub mod api;
