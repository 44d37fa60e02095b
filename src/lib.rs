//! Runs one build command in a throwaway container: the launch
//! specification, the routing of the container's output, and the
//! lifecycle that guarantees the container is removed however the run ends.
pub mod config;
pub mod lifecycle;
pub mod logs;
