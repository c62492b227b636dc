//! Sessions: their configuration and setup, their state, and the messages that pass
//! through them.

pub mod close;
pub mod config;
pub mod exchange;
pub mod laws;
pub mod link;
pub mod send;
pub mod serve;
pub mod setup;
pub mod start;
pub mod state;
pub mod transport_choice;

pub use config::{dapp, wallet, SessionConfig, SessionInitParameters, SessionPlan};
pub use exchange::{
    PendingRequest, ReplyEvent, DEFAULT_ACK_TIMEOUT_MS, DEFAULT_RESPONSE_TIMEOUT_MS,
};
pub use link::{LinkEvent, LinkStep};
pub use setup::{connect_session, connect_session_with_info, create_session};
pub use state::{build_session, Session, SessionState, SessionStateObject};
pub use transport_choice::select_transport_id;
