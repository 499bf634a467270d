//! Control client for the sched_ext scheduler-loader service.
//!
//! The client's decisions are verified here: how scheduler names are
//! normalised at the service boundary, how omitted schedulers and modes are
//! resolved from the service, which reads and calls an operation makes and in
//! which order, and how the replies become its result. Performing the bus
//! requests is left to the caller, which feeds each reply back to
//! [`session::next_step`].
pub mod cli;
pub mod modes;
pub mod scx_loader;
pub mod session;

pub use cli::{Cli, Commands};
pub use modes::Mode;
pub use scx_loader::{
    ensure_scx_prefix, has_scx_prefix, remove_scx_prefix, ScxLoaderMode, ScxMethods, ScxProperties,
};
pub use session::{
    next_step, BusCall, BusReply, CallArgs, ClientError, Operation, Outcome, Step, TransportError,
};
