pub mod task;
pub mod journal;
