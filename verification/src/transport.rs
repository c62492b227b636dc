//! What a session knows of its peer-to-peer transport.

use vstd::prelude::*;

verus! {

/// The state of the transport.
#[derive(Debug, Clone, Copy, PartialEq, Eq, Structural)]
pub enum TransportState {
    Connected,
    Error,
    /// A state that the session takes no notice of.
    Other,
}

} // verus!
