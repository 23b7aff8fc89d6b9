//! Activity tracking for an editor session: a debounce filter that decides
//! when an editing signal becomes a heartbeat, the connection state it reads
//! and updates, and the decisions of the background worker that delivers
//! heartbeats to the tracking service.

pub mod activity;
pub mod bucket;
pub mod debounce_laws;
pub mod state;
pub mod worker;
