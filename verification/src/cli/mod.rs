//! The command line.

pub mod laws;
pub mod receive;

pub use receive::ReceiveCommand;
