//! The connection URI that a host hands to a client.

use vstd::prelude::*;

use crate::keys::{HandshakeKey, PublicKeyHash};
use crate::signaling::{ProtocolView, SignalingProtocol};

verus! {

/// What the first version of a connection URI says.
#[derive(Debug)]
pub struct UriVersion1 {
    pub session_id: String,
    pub key_hash: PublicKeyHash,
    pub handshake_key: HandshakeKey,
    pub protocol: SignalingProtocol,
    pub server: String,
}

/// A connection URI.
#[derive(Debug)]
pub enum SessionUri {
    Version1(UriVersion1),
}

/// A connection URI with its texts as characters and its key as bytes.
pub struct UriView {
    pub session_id: Seq<char>,
    pub key_hash: Seq<char>,
    pub handshake_key: Seq<u8>,
    pub protocol: ProtocolView,
    pub server: Seq<char>,
}

impl View for UriVersion1 {
    type V = UriView;

    open spec fn view(&self) -> UriView {
        UriView {
            session_id: self.session_id@,
            key_hash: self.key_hash@,
            handshake_key: self.handshake_key@,
            protocol: self.protocol@,
            server: self.server@,
        }
    }
}

impl Clone for UriVersion1 {
    fn clone(&self) -> (copy: Self)
        ensures
            copy@ == self@,
    {
        UriVersion1 {
            session_id: self.session_id.clone(),
            key_hash: self.key_hash.clone(),
            handshake_key: self.handshake_key.clone(),
            protocol: self.protocol.clone(),
            server: self.server.clone(),
        }
    }
}

impl View for SessionUri {
    type V = UriView;

    open spec fn view(&self) -> UriView {
        match *self {
            SessionUri::Version1(version1) => version1@,
        }
    }
}

impl SessionUri {
    /// The URI of a session.
    pub fn new(
        session_id: &str,
        key_hash: PublicKeyHash,
        handshake_key: HandshakeKey,
        protocol: SignalingProtocol,
        server: String,
    ) -> (uri: Self)
        ensures
            uri@ == (UriView {
                session_id: session_id@,
                key_hash: key_hash@,
                handshake_key: handshake_key@,
                protocol: protocol@,
                server: server@,
            }),
    {
        SessionUri::Version1(
            UriVersion1 {
                session_id: session_id.to_owned(),
                key_hash,
                handshake_key,
                protocol,
                server,
            },
        )
    }
}

/// The URI of a session says what it was made of; so does a copy.
pub proof fn law_uri_says_what_it_was_made_of(
    session_id: &str,
    key_hash: PublicKeyHash,
    handshake_key: HandshakeKey,
    protocol: SignalingProtocol,
    server: String,
    uri: SessionUri,
    copy: UriVersion1,
)
    requires
        call_ensures(SessionUri::new, (session_id, key_hash, handshake_key, protocol, server), uri),
        call_ensures(UriVersion1::clone, (&uri->Version1_0,), copy),
    ensures
        uri matches SessionUri::Version1(said) && {
            &&& said.session_id@ == session_id@
            &&& said.key_hash.0@ == key_hash.0@
            &&& said.handshake_key.bytes@ == handshake_key.bytes@
            &&& said.protocol@ == protocol@
            &&& said.server@ == server@
            &&& uri@.session_id == said.session_id@
            &&& uri@.key_hash == said.key_hash.0@
            &&& uri@.handshake_key == said.handshake_key.bytes@
            &&& uri@.protocol == said.protocol@
            &&& uri@.server == said.server@
        },
        copy.session_id@ == session_id@,
        copy.key_hash.0@ == key_hash.0@,
        copy.handshake_key.bytes@ == handshake_key.bytes@,
        copy.protocol@ == protocol@,
        copy.server@ == server@,
{
}

} // verus!
