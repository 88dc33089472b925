//! The logic of the JogiCode desktop shell, without its input and output.
//!
//! JogiCode runs code-server on a loopback port and shows it in a window of its own. What
//! takes several steps with input or output between them is a value here that says what is
//! to be done next and takes what came of it. An answer to something that was not asked
//! changes nothing.

pub mod contents;
pub mod copy;
pub mod defaults;
pub mod endpoint;
pub mod journal;
pub mod layout;
pub mod migrate;
pub mod paths;
pub mod ports;
pub mod provision;
mod queue;
pub mod readiness;
pub mod search;
pub mod server;
pub mod sidecar;
pub mod splash;
pub mod startup;
pub mod text;
pub mod tree;
pub mod watch;
