//! What most uses of a session need.

pub use crate::error::OpenLvError;
pub use crate::session::{dapp, wallet, Session, SessionConfig, SessionState};
pub use crate::signaling::PeerInfo;
pub use crate::signaling::SignalingProtocol as Protocol;
