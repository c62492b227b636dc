//! What a session knows of its signaling layer: the protocol that reaches it, the
//! states that it goes through and what the remote peer said it can do.

use vstd::prelude::*;

use crate::json::Json;
use crate::text::same_text;

verus! {

/// The protocol that carries the handshake.
#[derive(Debug)]
pub enum SignalingProtocol {
    Ntfy,
    Mqtt,
    /// A protocol of another name.
    Other(String),
}

/// A [`SignalingProtocol`] with its name as characters.
pub enum ProtocolView {
    Ntfy,
    Mqtt,
    Other(Seq<char>),
}

impl ProtocolView {
    /// The protocol of a name.
    pub open spec fn of_name(name: Seq<char>) -> Self {
        if name == "ntfy"@ {
            ProtocolView::Ntfy
        } else if name == "mqtt"@ {
            ProtocolView::Mqtt
        } else {
            ProtocolView::Other(name)
        }
    }

    /// The name of a protocol.
    pub open spec fn name(self) -> Seq<char> {
        match self {
            ProtocolView::Ntfy => "ntfy"@,
            ProtocolView::Mqtt => "mqtt"@,
            ProtocolView::Other(name) => name,
        }
    }
}

impl View for SignalingProtocol {
    type V = ProtocolView;

    open spec fn view(&self) -> ProtocolView {
        match *self {
            SignalingProtocol::Ntfy => ProtocolView::Ntfy,
            SignalingProtocol::Mqtt => ProtocolView::Mqtt,
            SignalingProtocol::Other(name) => ProtocolView::Other(name@),
        }
    }
}

impl From<String> for SignalingProtocol {
    fn from(name: String) -> (protocol: Self) {
        if same_text(name.as_str(), "ntfy") {
            SignalingProtocol::Ntfy
        } else if same_text(name.as_str(), "mqtt") {
            SignalingProtocol::Mqtt
        } else {
            SignalingProtocol::Other(name)
        }
    }
}

impl vstd::std_specs::convert::FromSpecImpl<String> for SignalingProtocol {
    open spec fn obeys_from_spec() -> bool {
        true
    }

    open spec fn from_spec(name: String) -> Self {
        if name@ == "ntfy"@ {
            SignalingProtocol::Ntfy
        } else if name@ == "mqtt"@ {
            SignalingProtocol::Mqtt
        } else {
            SignalingProtocol::Other(name)
        }
    }
}

impl SignalingProtocol {
    /// The name that the protocol goes by in a session URL.
    pub fn name(&self) -> (name: String)
        ensures
            name@ == self@.name(),
    {
        match self {
            SignalingProtocol::Ntfy => "ntfy".to_owned(),
            SignalingProtocol::Mqtt => "mqtt".to_owned(),
            SignalingProtocol::Other(name) => name.clone(),
        }
    }
}

impl Clone for SignalingProtocol {
    fn clone(&self) -> (copy: Self)
        ensures
            copy == *self,
    {
        match self {
            SignalingProtocol::Ntfy => SignalingProtocol::Ntfy,
            SignalingProtocol::Mqtt => SignalingProtocol::Mqtt,
            SignalingProtocol::Other(name) => SignalingProtocol::Other(name.clone()),
        }
    }
}

/// Reading a name as a protocol loses nothing: the protocol goes by that name.
pub proof fn law_protocol_keeps_its_name(name: Seq<char>)
    ensures
        ProtocolView::of_name(name).name() == name,
{
}

/// The state of the signaling layer.
#[derive(Debug, PartialEq, Eq)]
pub enum SignalState {
    Ready,
    Handshake,
    HandshakePartial,
    Encrypted,
    Error,
    /// A state of another name, of which the session takes no notice. Its observers see
    /// it as it is.
    Other(String),
}

/// A [`SignalState`] with its name as characters.
pub enum SignalView {
    Ready,
    Handshake,
    HandshakePartial,
    Encrypted,
    Error,
    Other(Seq<char>),
}

impl View for SignalState {
    type V = SignalView;

    open spec fn view(&self) -> SignalView {
        match *self {
            SignalState::Ready => SignalView::Ready,
            SignalState::Handshake => SignalView::Handshake,
            SignalState::HandshakePartial => SignalView::HandshakePartial,
            SignalState::Encrypted => SignalView::Encrypted,
            SignalState::Error => SignalView::Error,
            SignalState::Other(name) => SignalView::Other(name@),
        }
    }
}

impl Clone for SignalState {
    fn clone(&self) -> (copy: Self)
        ensures
            copy@ == self@,
    {
        match self {
            SignalState::Ready => SignalState::Ready,
            SignalState::Handshake => SignalState::Handshake,
            SignalState::HandshakePartial => SignalState::HandshakePartial,
            SignalState::Encrypted => SignalState::Encrypted,
            SignalState::Error => SignalState::Error,
            SignalState::Other(name) => SignalState::Other(name.clone()),
        }
    }
}

impl SignalState {
    /// Whether the handshake is complete.
    pub fn is_encrypted(&self) -> (encrypted: bool)
        ensures
            encrypted == (self@ is Encrypted),
    {
        matches!(self, SignalState::Encrypted)
    }
}

/// The state that is there, if any.
pub open spec fn opt_signal(state: Option<SignalState>) -> Option<SignalView> {
    match state {
        Some(s) => Some(s@),
        None => None,
    }
}

/// A copy of the state that is there, if any.
pub fn copy_opt_signal(state: &Option<SignalState>) -> (copy: Option<SignalState>)
    ensures
        opt_signal(copy) == opt_signal(*state),
{
    match state {
        Some(s) => Some(s.clone()),
        None => None,
    }
}

/// The identity that a peer shares during the handshake, as the JSON that carries it.
#[derive(Debug)]
pub struct PeerInfo {
    pub details: serde_json::Value,
}

impl View for PeerInfo {
    type V = Json;

    open spec fn view(&self) -> Json {
        crate::json::content(self.details)
    }
}

impl Clone for PeerInfo {
    fn clone(&self) -> (copy: Self)
        ensures
            copy@ == self@,
    {
        PeerInfo { details: crate::json::copy_value(&self.details) }
    }
}

/// The identity that is there, if any.
pub open spec fn opt_info(info: Option<PeerInfo>) -> Option<Json> {
    match info {
        Some(i) => Some(i@),
        None => None,
    }
}

/// A copy of the identity that is there, if any.
pub fn copy_opt_info(info: &Option<PeerInfo>) -> (copy: Option<PeerInfo>)
    ensures
        opt_info(copy) == opt_info(*info),
{
    match info {
        Some(i) => Some(i.clone()),
        None => None,
    }
}

/// What a peer says of itself during the handshake.
#[derive(Debug)]
pub struct PeerCapabilities {
    /// The transports it supports, the one it prefers first.
    pub transports: Vec<String>,
    pub info: Option<PeerInfo>,
}

/// A [`PeerCapabilities`] with its texts as characters.
pub struct CapabilitiesView {
    pub transports: Seq<Seq<char>>,
    pub info: Option<Json>,
}

impl View for PeerCapabilities {
    type V = CapabilitiesView;

    open spec fn view(&self) -> CapabilitiesView {
        CapabilitiesView {
            transports: crate::text::string_texts(self.transports@),
            info: opt_info(self.info),
        }
    }
}

/// What the signaling layer reports at one moment.
#[derive(Debug)]
pub struct SignalingSnapshot {
    pub state: SignalState,
    /// What the remote peer said of itself, once the handshake has told.
    pub peer: Option<PeerCapabilities>,
}

/// A [`SignalingSnapshot`] with its texts as characters.
pub struct SnapshotView {
    pub state: SignalView,
    pub peer: Option<CapabilitiesView>,
}

impl SnapshotView {
    /// The identity of the remote peer, once known.
    pub open spec fn peer_info(self) -> Option<Json> {
        match self.peer {
            Some(peer) => peer.info,
            None => None,
        }
    }
}

impl View for SignalingSnapshot {
    type V = SnapshotView;

    open spec fn view(&self) -> SnapshotView {
        SnapshotView {
            state: self.state@,
            peer: match self.peer {
                Some(peer) => Some(peer@),
                None => None,
            },
        }
    }
}

impl SignalingSnapshot {
    /// The identity of the remote peer, once known.
    pub fn peer_info(&self) -> (info: Option<PeerInfo>)
        ensures
            opt_info(info) == self@.peer_info(),
    {
        match &self.peer {
            Some(peer) => copy_opt_info(&peer.info),
            None => None,
        }
    }
}

/// A protocol is known by its name: `ntfy` and `mqtt` name the two that are known, any
/// other name one that goes by it.
pub proof fn law_protocols_go_by_their_names(name: Seq<char>)
    ensures
        ProtocolView::Ntfy.name() == "ntfy"@,
        ProtocolView::Mqtt.name() == "mqtt"@,
        ProtocolView::Other(name).name() == name,
        name == "ntfy"@ ==> ProtocolView::of_name(name) == ProtocolView::Ntfy,
        name == "mqtt"@ ==> ProtocolView::of_name(name) == ProtocolView::Mqtt,
        name != "ntfy"@ && name != "mqtt"@ ==> ProtocolView::of_name(name) == ProtocolView::Other(
            name,
        ),
{
    reveal_strlit("ntfy");
    reveal_strlit("mqtt");
    assert("ntfy"@[0] == 'n' && "mqtt"@[0] == 'm');
}

/// Reading a name as a protocol and writing that protocol's name gives the name back.
pub proof fn law_protocol_name_is_kept(
    name: String,
    protocol: SignalingProtocol,
    written: String,
    copy: SignalingProtocol,
)
    requires
        call_ensures(SignalingProtocol::from, (name,), protocol),
        call_ensures(SignalingProtocol::name, (&protocol,), written),
        call_ensures(SignalingProtocol::clone, (&protocol,), copy),
    ensures
        written@ == name@,
        protocol is Ntfy <==> name@ == "ntfy"@,
        protocol is Mqtt <==> name@ == "mqtt"@,
        copy == protocol,
{
    reveal_strlit("ntfy");
    reveal_strlit("mqtt");
    assert("ntfy"@[0] == 'n' && "mqtt"@[0] == 'm');
}

/// Two states of the signaling layer are seen to be the same exactly if they are, with
/// the same name where they have one; a copy is. The handshake is complete in exactly one
/// of them.
pub proof fn law_signal_states_are_told_apart(
    a: SignalState,
    b: SignalState,
    copy: SignalState,
    encrypted: bool,
)
    requires
        call_ensures(SignalState::clone, (&a,), copy),
        call_ensures(SignalState::is_encrypted, (&a,), encrypted),
    ensures
        a@ == b@ <==> match (a, b) {
            (SignalState::Ready, SignalState::Ready) => true,
            (SignalState::Handshake, SignalState::Handshake) => true,
            (SignalState::HandshakePartial, SignalState::HandshakePartial) => true,
            (SignalState::Encrypted, SignalState::Encrypted) => true,
            (SignalState::Error, SignalState::Error) => true,
            (SignalState::Other(x), SignalState::Other(y)) => x@ == y@,
            _ => false,
        },
        copy@ == a@,
        encrypted <==> a is Encrypted,
{
}

/// The identity of the remote peer is the one that the peer gave, if it gave one.
pub proof fn law_identity_is_the_peers(snapshot: SignalingSnapshot, info: Option<PeerInfo>)
    requires
        call_ensures(SignalingSnapshot::peer_info, (&snapshot,), info),
    ensures
        match snapshot.peer {
            Some(peer) => match peer.info {
                Some(given) => info matches Some(i) && crate::json::content(i.details)
                    == crate::json::content(given.details),
                None => info is None,
            },
            None => info is None,
        },
{
}

/// A copied identity holds the same, and is there exactly if the identity is.
pub proof fn law_copied_identity_is_the_same(
    info: PeerInfo,
    copy: PeerInfo,
    optional: Option<PeerInfo>,
    optional_copy: Option<PeerInfo>,
)
    requires
        call_ensures(PeerInfo::clone, (&info,), copy),
        call_ensures(copy_opt_info, (&optional,), optional_copy),
    ensures
        crate::json::content(copy.details) == crate::json::content(info.details),
        match (optional, optional_copy) {
            (Some(i), Some(c)) => crate::json::content(c.details) == crate::json::content(i.details),
            (None, None) => true,
            _ => false,
        },
{
}

} // verus!
