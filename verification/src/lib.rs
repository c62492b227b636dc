//! Open Lavatory (openlv for short) connects a dApp and a wallet peer to peer.
//!
//! This crate is the logic of such a connection: what a session is configured and set
//! up with, how the signaling layer and the transport move it from one state to the
//! next, how requests are acknowledged, answered and timed out, and how a session serves
//! as a JSON-RPC transport and as a remote wallet. Everything here is a plain function of
//! its inputs. Whoever drives a session performs the network I/O, hands in what came of
//! it, and does what the result says.
//!
//! A host starts with [`dapp`] and a client with [`wallet()`]. Settling the configuration
//! gives a [`session::config::SessionPlan`]; the functions of [`session::setup`] turn that
//! into a [`Session`].

pub mod error;
pub mod json;
pub mod keys;
pub mod message;
pub mod prelude;
pub mod provider;
pub mod session;
pub mod signaling;
pub mod text;
pub mod transport;
pub mod url;
pub mod wallet;

pub use error::OpenLvError;
pub use session::{
    build_session, connect_session, create_session, dapp, select_transport_id, wallet, Session,
    SessionConfig, SessionInitParameters, SessionState, SessionStateObject,
};
pub use signaling::{PeerCapabilities, PeerInfo, SignalState, SignalingProtocol};
pub use url::SessionUri;
