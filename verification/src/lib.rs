pub mod composer;
pub mod config;
pub mod dispatch;
pub mod event;
pub mod orchestrator;
pub mod router;
pub mod sync;
pub mod transport;
