//! Supervision of background worker processes and relaying of their events.
//!
//! The crate holds the decisions of a desktop application's control plane:
//! which workers are registered, how a group of them is restarted around a
//! change of configuration, and how the events they produce reach an
//! observer. Everything that touches a process, a file or a window is left
//! to the caller, which performs the actions the library asks for and
//! reports back what came of them.
//!
//! - [`worker`], [`registry`]: the workers' roles and handles, and the
//!   registry that maps each worker's name to the handle of its process.
//! - [`restart`], [`supervisor`]: the restart of a group of workers as a
//!   state machine, and the supervisor that runs it on its registry.
//! - [`guarantees`]: what holds of every course that restarts can take.
//! - [`channel`], [`forwarder`], [`bus`], [`producer`]: the event channels,
//!   the forwarders that drain them and the producers that feed them.
//! - [`plugin`], [`command`]: the plugins' files and the commands of the
//!   front end.
//! - [`text`], [`error`]: operations on text, and the failures reported.

pub mod bus;
pub mod channel;
pub mod command;
pub mod error;
pub mod forwarder;
pub mod guarantees;
pub mod plugin;
pub mod producer;
pub mod registry;
pub mod restart;
pub mod supervisor;
pub mod text;
pub mod worker;
