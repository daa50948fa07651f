//! Supervision of pipeline jobs: the registry of jobs, the decisions that
//! start a worker and its progress watcher, the stop signal that ends the
//! watcher, and the listings that the front end shows.
pub mod registry;
pub mod signal;
pub mod text;
pub mod launch;
pub mod projects;
pub mod paths;
pub mod preview;
pub mod laws;
