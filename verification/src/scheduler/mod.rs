pub mod jobs;
pub mod queue;
pub mod status;
