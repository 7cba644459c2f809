//! The receiving side.

pub mod events;
pub mod handlers;
pub mod laws;
pub mod pin;
pub mod pin_laws;
pub mod server;
pub mod server_laws;
pub mod setup_laws;
pub mod share_laws;
pub mod state;
pub mod transfer_laws;
pub mod web_laws;
pub mod web_share;

pub use events::{PendingRequest, PendingWebShareRequest, ServerEvent, TransferDecision};
pub use server::{LocalSendServer, LocalSendServerBuilder};
pub use web_share::{WebShareFile, WebShareSource};
