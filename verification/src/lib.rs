//! Lifecycle and configuration-distribution core of a long-running agent:
//! configuration loading with a legacy fallback, a snapshot handler for
//! module configuration, the process-wide termination signal, and the
//! supervisor that orders startup and shutdown. The functions are verified
//! against the contracts stated on them; the few that hand a call on to
//! another library say which call, and what is taken on trust of it.

pub mod bytes;
pub mod config;
pub mod consts;
pub mod error;
pub mod handler;
pub mod net;
pub mod state;
pub mod text;
pub mod trident;
pub mod utils;
