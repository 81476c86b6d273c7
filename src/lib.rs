//! Supervision of a background network service: PID file bookkeeping,
//! start/stop decisions, bounded shutdown and log rendering.

pub mod text;
pub mod paths;
pub mod pidfile;
pub mod error;
pub mod privilege;
pub mod daemon;
