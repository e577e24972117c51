//! Heartbeat monitoring core: the expectation grid, the paginated status
//! timeline reconstructed from sparse pings, and the overdue-incident
//! detector with its atomic claim and reset transitions.
pub mod api;
pub mod date_time;
pub mod dispatch;
pub mod grid;
pub mod incident;
pub mod interval;
pub mod settings;
pub mod system;
pub mod timeline;
pub mod users;
