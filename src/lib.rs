//! Bridges a process running on a pseudo-terminal to a message-based
//! network connection: the wire protocol, the two pumps between the
//! terminal and the control loop, and the control loop's decisions.

pub mod args;
pub mod bridge;
pub mod command;
pub mod decimal;
pub mod protocol;

pub use args::RttydArgs;
pub use command::{CommandInputItem, CommandOutputItem};
