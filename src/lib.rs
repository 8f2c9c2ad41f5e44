//! Service orchestration and log-stream supervision for a compose dashboard.
//!
//! The library holds the decisions of the dashboard: which services are
//! queued to start or stop and when that intent is satisfied, which log
//! stream is the live one for each service, and which orchestrator
//! command a user action turns into. The program around it performs the
//! container-engine calls and the rendering.
pub mod dashboard;
pub mod keys;
pub mod logs;
pub mod modifier;
pub mod name_map;
pub mod path;
pub mod queue;
pub mod registry;
pub mod screen;
