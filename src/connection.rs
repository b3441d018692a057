//! The state that one device connection carries between chunks.

use vstd::prelude::*;
use crate::protocol::ACK_SENTINEL;

verus! {

/// The per-connection state: the authenticated identifier, once the
/// handshake has succeeded, and the first byte of an acknowledgment-count
/// message that arrived alone.
pub struct ConnectionState {
    pub imei: Option<String>,
    pub partial_ack: Option<u8>,
}

/// The mathematical value of a `ConnectionState`.
pub struct SessionView {
    pub imei: Option<Seq<char>>,
    pub partial_ack: Option<u8>,
}

/// The pending acknowledgment byte, when there is one, is the sentinel.
pub open spec fn well_formed(s: SessionView) -> bool {
    s.partial_ack is None || s.partial_ack == Some(ACK_SENTINEL)
}

impl View for ConnectionState {
    type V = SessionView;

    open spec fn view(&self) -> SessionView {
        SessionView {
            imei: match self.imei {
                Some(s) => Some(s@),
                None => None,
            },
            partial_ack: self.partial_ack,
        }
    }
}

impl ConnectionState {
    /// A fresh, unauthenticated state.
    pub fn new() -> (r: Self)
        ensures
            r@.imei is None,
            r@.partial_ack is None,
            well_formed(r@),
    {
        ConnectionState { imei: None, partial_ack: None }
    }
}

} // verus!
