//! What a running server knows.

use crate::protocol::DeviceInfo;
use crate::server::pin::PinGate;
use crate::server::web_share::WebShareState;
use crate::session::Session;
use std::path::PathBuf;
use std::time::Duration;
use vstd::prelude::*;

verus! {

/// The state behind the HTTP interface.
#[derive(Debug)]
pub struct ServerState {
    pub device: DeviceInfo,
    pub current_session: Option<Session>,
    pub save_dir: PathBuf,
    pub auto_accept: bool,
    pub accept_timeout: Duration,
    pub pin_gate: PinGate,
    pub web_share: Option<WebShareState>,
}

impl ServerState {
    /// True when nothing but the session and the count of wrong PINs differs.
    pub open spec fn same_setup(self, other: ServerState) -> bool {
        &&& self.device == other.device
        &&& self.save_dir == other.save_dir
        &&& self.auto_accept == other.auto_accept
        &&& self.accept_timeout == other.accept_timeout
        &&& self.web_share == other.web_share
    }

    /// True when the session is sound: each of its files has a token.
    pub open spec fn wf(self) -> bool {
        self.current_session matches Some(session) ==> session.wf()
    }
}

} // verus!
