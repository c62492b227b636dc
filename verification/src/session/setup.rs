//! Setting a session up from key material.
//!
//! Keys, hashes and signaling channels are made by the layers below; what they come to
//! is handed in. The functions here decide what is asked of them and how the session
//! and its signaling layer are put together.

use vstd::prelude::*;

use crate::error::{ErrorView, OpenLvError};
use crate::json::Json;
use crate::keys::{DecryptionKey, EncryptionKey, HandshakeKey, InitHash, KeyPair, PublicKeyHash};
use crate::session::config::{InitView, SessionInitParameters};
use crate::session::state::{build_session, Session, SessionState, SessionView};
use crate::signaling::{
    CapabilitiesView, PeerCapabilities, PeerInfo, ProtocolView, SignalingProtocol,
};
use crate::url::{SessionUri, UriVersion1, UriView};

verus! {

/// What a peer of this library says of itself.
pub open spec fn offered(info: Option<Json>) -> CapabilitiesView {
    CapabilitiesView { transports: seq!["wrtc"@], info }
}

fn offer(info: Option<PeerInfo>) -> (capabilities: PeerCapabilities)
    ensures
        capabilities@ == offered(crate::signaling::opt_info(info)),
{
    let mut transports: Vec<String> = Vec::new();
    transports.push("wrtc".to_owned());
    assert(crate::text::string_texts(transports@) =~= seq!["wrtc"@]);
    PeerCapabilities { transports, info }
}

/// What was made for a session that is to be created.
#[derive(Debug)]
pub struct FreshMaterial {
    /// Taken if no session identifier was settled.
    pub session_id: String,
    pub key_pair: Result<KeyPair, OpenLvError>,
    /// Taken if no handshake key was settled.
    pub handshake_key: Result<HandshakeKey, OpenLvError>,
}

/// A session of a host before its hash is known. The hash is asked for with `h` and the
/// encryption key of `key_pair`.
#[derive(Debug)]
pub struct HostDraft {
    pub session_id: String,
    pub key_pair: KeyPair,
    pub handshake_key: HandshakeKey,
    pub h: Option<String>,
    pub protocol: SignalingProtocol,
    pub server: String,
    pub info: Option<PeerInfo>,
}

/// A [`HostDraft`] with its texts as characters and its keys as bytes.
pub struct HostDraftView {
    pub session_id: Seq<char>,
    pub encryption_key: Seq<u8>,
    pub decryption_key: Seq<u8>,
    pub handshake_key: Seq<u8>,
    pub h: Option<Seq<char>>,
    pub protocol: ProtocolView,
    pub server: Seq<char>,
    pub info: Option<Json>,
}

impl View for HostDraft {
    type V = HostDraftView;

    open spec fn view(&self) -> HostDraftView {
        HostDraftView {
            session_id: self.session_id@,
            encryption_key: self.key_pair.encryption_key@,
            decryption_key: self.key_pair.decryption_key@,
            handshake_key: self.handshake_key@,
            h: crate::text::opt_text(self.h),
            protocol: self.protocol@,
            server: self.server@,
            info: crate::signaling::opt_info(self.info),
        }
    }
}

impl InitView {
    /// The draft of a session with these parameters: what is not settled is taken from
    /// what was made, or is the public ntfy server.
    pub open spec fn draft(
        self,
        fresh_id: Seq<char>,
        key_pair: KeyPair,
        fresh_key: Option<Seq<u8>>,
    ) -> HostDraftView {
        HostDraftView {
            session_id: match self.session_id {
                Some(id) => id,
                None => fresh_id,
            },
            encryption_key: key_pair.encryption_key@,
            decryption_key: key_pair.decryption_key@,
            handshake_key: match self.k {
                Some(key) => key,
                None => fresh_key->0,
            },
            h: self.h,
            protocol: ProtocolView::of_name(
                match self.p {
                    Some(name) => name,
                    None => "ntfy"@,
                },
            ),
            server: match self.s {
                Some(server) => server,
                None => "https://ntfy.sh/"@,
            },
            info: self.info,
        }
    }
}

/// What a signaling channel is opened with.
#[derive(Debug)]
pub struct ChannelRequest {
    pub protocol: SignalingProtocol,
    pub session_id: String,
    pub server: String,
}

/// What the signaling layer of a host is given.
#[derive(Debug)]
pub struct SignalingProperties {
    pub is_host: bool,
    pub h: String,
    pub handshake_key: Option<HandshakeKey>,
    pub encryption_key: EncryptionKey,
    pub decryption_key: DecryptionKey,
    pub capabilities: PeerCapabilities,
}

/// A session of a host, and what its signaling layer is made of.
#[derive(Debug)]
pub struct HostSetup {
    pub session: Session,
    pub channel: ChannelRequest,
    pub properties: SignalingProperties,
    pub decryption_key: DecryptionKey,
}

/// A [`HostSetup`] with its texts as characters and its keys as bytes.
pub struct HostSetupView {
    pub session: SessionView,
    pub channel: ChannelView,
    pub properties: PropertiesView,
    pub decryption_key: Seq<u8>,
}

/// A [`ChannelRequest`] with its texts as characters.
pub struct ChannelView {
    pub protocol: ProtocolView,
    pub session_id: Seq<char>,
    pub server: Seq<char>,
}

/// A [`SignalingProperties`] with its texts as characters and its keys as bytes.
pub struct PropertiesView {
    pub is_host: bool,
    pub h: Seq<char>,
    pub handshake_key: Option<Seq<u8>>,
    pub encryption_key: Seq<u8>,
    pub decryption_key: Seq<u8>,
    pub capabilities: CapabilitiesView,
}

impl View for HostSetup {
    type V = HostSetupView;

    open spec fn view(&self) -> HostSetupView {
        HostSetupView {
            session: self.session@,
            channel: ChannelView {
                protocol: self.channel.protocol@,
                session_id: self.channel.session_id@,
                server: self.channel.server@,
            },
            properties: PropertiesView {
                is_host: self.properties.is_host,
                h: self.properties.h@,
                handshake_key: crate::session::config::opt_key(self.properties.handshake_key),
                encryption_key: self.properties.encryption_key@,
                decryption_key: self.properties.decryption_key@,
                capabilities: self.properties.capabilities@,
            },
            decryption_key: self.decryption_key@,
        }
    }
}

impl HostDraftView {
    /// The URI that a client reaches the session by.
    pub open spec fn uri(self, key_hash: Seq<char>) -> UriView {
        UriView {
            session_id: self.session_id,
            key_hash,
            handshake_key: self.handshake_key,
            protocol: self.protocol,
            server: self.server,
        }
    }

    /// What the draft comes to once its hash is known. The session is a host; the
    /// signaling layer takes the role that follows from the hash.
    pub open spec fn opened(self, init_hash: InitHash, key_hash: Seq<char>) -> HostSetupView {
        HostSetupView {
            session: SessionView::created(self.uri(key_hash), true),
            channel: ChannelView {
                protocol: self.protocol,
                session_id: self.session_id,
                server: self.server,
            },
            properties: PropertiesView {
                is_host: init_hash.is_host,
                h: init_hash.hash@,
                handshake_key: Some(self.handshake_key),
                encryption_key: self.encryption_key,
                decryption_key: self.decryption_key,
                capabilities: offered(self.info),
            },
            decryption_key: self.decryption_key,
        }
    }
}

/// Drafts a session of a host.
pub fn create_session(init: SessionInitParameters, fresh: FreshMaterial) -> (draft: Result<
    HostDraft,
    OpenLvError,
>)
    ensures
        match fresh.key_pair {
            Err(error) => draft == Err::<HostDraft, OpenLvError>(error),
            Ok(key_pair) => match (init.k, fresh.handshake_key) {
                (None, Err(error)) => draft == Err::<HostDraft, OpenLvError>(error),
                (_, fresh_key) => draft matches Ok(d) && d@ == init@.draft(
                    fresh.session_id@,
                    key_pair,
                    match fresh_key {
                        Ok(key) => Some(key@),
                        Err(_) => None,
                    },
                ),
            },
        },
{
    let session_id = match init.session_id {
        Some(id) => id,
        None => fresh.session_id,
    };
    let key_pair = match fresh.key_pair {
        Ok(key_pair) => key_pair,
        Err(error) => return Err(error),
    };
    let handshake_key = match init.k {
        Some(key) => key,
        None => match fresh.handshake_key {
            Ok(key) => key,
            Err(error) => return Err(error),
        },
    };
    let protocol = SignalingProtocol::from(
        match init.p {
            Some(name) => name,
            None => "ntfy".to_owned(),
        },
    );
    let server = match init.s {
        Some(server) => server,
        None => "https://ntfy.sh/".to_owned(),
    };
    Ok(
        HostDraft {
            session_id,
            key_pair,
            handshake_key,
            h: init.h,
            protocol,
            server,
            info: init.info,
        },
    )
}

impl HostDraft {
    /// Puts the session together once its hash is known. `key_hash` is the hash of its
    /// public key.
    pub fn open(self, init_hash: Result<InitHash, OpenLvError>, key_hash: PublicKeyHash) -> (setup:
        Result<HostSetup, OpenLvError>)
        ensures
            match init_hash {
                Err(error) => setup == Err::<HostSetup, OpenLvError>(error),
                Ok(hash) => setup matches Ok(s) && s@ == self@.opened(hash, key_hash@),
            },
    {
        let init_hash = match init_hash {
            Ok(hash) => hash,
            Err(error) => return Err(error),
        };
        let channel = ChannelRequest {
            protocol: self.protocol.clone(),
            session_id: self.session_id.clone(),
            server: self.server.clone(),
        };
        let properties = SignalingProperties {
            is_host: init_hash.is_host,
            h: init_hash.hash,
            handshake_key: Some(self.handshake_key.clone()),
            encryption_key: self.key_pair.encryption_key,
            decryption_key: self.key_pair.decryption_key.clone(),
            capabilities: offer(self.info),
        };
        let uri = SessionUri::new(
            self.session_id.as_str(),
            key_hash,
            self.handshake_key,
            self.protocol,
            self.server,
        );
        Ok(
            HostSetup {
                session: build_session(uri, true),
                channel,
                properties,
                decryption_key: self.key_pair.decryption_key,
            },
        )
    }
}

/// A session of a client before its hash is known. The hash is asked for with the key
/// hash of the URI and the encryption key of `key_pair`.
#[derive(Debug)]
pub struct ClientDraft {
    pub uri: SessionUri,
    pub key_pair: KeyPair,
    pub info: Option<PeerInfo>,
}

/// A session of a client, and what its signaling layer is made of.
#[derive(Debug)]
pub struct ClientSetup {
    pub session: Session,
    pub version1: UriVersion1,
    pub encryption_key: EncryptionKey,
    pub decryption_key: DecryptionKey,
    pub is_host: bool,
    pub capabilities: PeerCapabilities,
}

/// A [`ClientSetup`] with its texts as characters and its keys as bytes.
pub struct ClientSetupView {
    pub session: SessionView,
    pub version1: UriView,
    pub encryption_key: Seq<u8>,
    pub decryption_key: Seq<u8>,
    pub is_host: bool,
    pub capabilities: CapabilitiesView,
}

impl View for ClientSetup {
    type V = ClientSetupView;

    open spec fn view(&self) -> ClientSetupView {
        ClientSetupView {
            session: self.session@,
            version1: self.version1@,
            encryption_key: self.encryption_key@,
            decryption_key: self.decryption_key@,
            is_host: self.is_host,
            capabilities: self.capabilities@,
        }
    }
}

/// What connecting to a URI comes to once its hash is known: the session and its
/// signaling layer take the role that follows from the hash.
pub open spec fn connected_to(
    uri: UriView,
    key_pair: KeyPair,
    is_host: bool,
    info: Option<Json>,
) -> ClientSetupView {
    ClientSetupView {
        session: SessionView::created(uri, is_host),
        version1: uri,
        encryption_key: key_pair.encryption_key@,
        decryption_key: key_pair.decryption_key@,
        is_host,
        capabilities: offered(info),
    }
}

/// Drafts a session of a client without an identity. See [`connect_session_with_info`].
pub fn connect_session(
    uri: Result<SessionUri, OpenLvError>,
    key_pair: Result<KeyPair, OpenLvError>,
) -> (draft: Result<ClientDraft, OpenLvError>)
    ensures
        draft == (match (uri, key_pair) {
            (Err(error), _) => Err::<ClientDraft, OpenLvError>(error),
            (Ok(_), Err(error)) => Err(error),
            (Ok(uri), Ok(key_pair)) => Ok(ClientDraft { uri, key_pair, info: None }),
        }),
{
    connect_session_with_info(uri, key_pair, None)
}

/// Drafts a session of a client, from what reading its URL came to.
pub fn connect_session_with_info(
    uri: Result<SessionUri, OpenLvError>,
    key_pair: Result<KeyPair, OpenLvError>,
    info: Option<PeerInfo>,
) -> (draft: Result<ClientDraft, OpenLvError>)
    ensures
        draft == (match (uri, key_pair) {
            (Err(error), _) => Err::<ClientDraft, OpenLvError>(error),
            (Ok(_), Err(error)) => Err(error),
            (Ok(uri), Ok(key_pair)) => Ok(ClientDraft { uri, key_pair, info }),
        }),
{
    match uri {
        Err(error) => Err(error),
        Ok(uri) => match key_pair {
            Err(error) => Err(error),
            Ok(key_pair) => Ok(ClientDraft { uri, key_pair, info }),
        },
    }
}

impl ClientDraft {
    /// What the hash is asked for with.
    pub fn hash_input(&self) -> (h: &str)
        ensures
            h@ == self.uri@.key_hash,
    {
        match &self.uri {
            SessionUri::Version1(version1) => version1.key_hash.0.as_str(),
        }
    }

    /// Puts the session together once its hash is known.
    pub fn open(self, init_hash: Result<InitHash, OpenLvError>) -> (setup: Result<
        ClientSetup,
        OpenLvError,
    >)
        ensures
            match init_hash {
                Err(error) => setup == Err::<ClientSetup, OpenLvError>(error),
                Ok(hash) => setup matches Ok(s) && s@ == connected_to(
                    self.uri@,
                    self.key_pair,
                    hash.is_host,
                    crate::signaling::opt_info(self.info),
                ),
            },
    {
        let init_hash = match init_hash {
            Ok(hash) => hash,
            Err(error) => return Err(error),
        };
        let version1 = match &self.uri {
            SessionUri::Version1(version1) => version1.clone(),
        };
        Ok(
            ClientSetup {
                session: build_session(self.uri, init_hash.is_host),
                version1,
                encryption_key: self.key_pair.encryption_key,
                decryption_key: self.key_pair.decryption_key,
                is_host: init_hash.is_host,
                capabilities: offer(self.info),
            },
        )
    }
}

/// A client that connects to the URI of a host meets it: it is led to the channel that
/// the host opened, and shares the handshake key of the host's signaling layer.
pub proof fn law_client_meets_host(
    draft: HostDraftView,
    host_hash: InitHash,
    key_hash: Seq<char>,
    client_keys: KeyPair,
    client_hash: InitHash,
    client_info: Option<Json>,
)
    ensures
        ({
            let host = draft.opened(host_hash, key_hash);
            let client = connected_to(
                host.session.uri,
                client_keys,
                client_hash.is_host,
                client_info,
            );
            &&& client.version1.protocol == host.channel.protocol
            &&& client.version1.session_id == host.channel.session_id
            &&& client.version1.server == host.channel.server
            &&& host.properties.handshake_key == Some(client.version1.handshake_key)
            &&& client.version1.key_hash == key_hash
        }),
{
}

/// Two peers of this library always have a transport in common.
pub proof fn law_offers_are_compatible(session: SessionView, info: Option<Json>)
    ensures
        session.transport_with(Some(offered(info))) == Some("wrtc"@),
{
    let own = seq!["wrtc"@];
    assert(own[0] == "wrtc"@);
    assert(own.contains("wrtc"@));
}

/// The settings of a host end up in the URI of its session: the session identifier, the
/// handshake key, the protocol and the server that were set are those that a client
/// is led to.
pub proof fn law_settings_reach_uri(
    init: InitView,
    fresh_id: Seq<char>,
    key_pair: KeyPair,
    fresh_key: Option<Seq<u8>>,
    key_hash: Seq<char>,
)
    ensures
        ({
            let uri = init.draft(fresh_id, key_pair, fresh_key).uri(key_hash);
            &&& init.session_id matches Some(id) ==> uri.session_id == id
            &&& init.k matches Some(key) ==> uri.handshake_key == key
            &&& init.p matches Some(name) ==> uri.protocol.name() == name
            &&& init.s matches Some(server) ==> uri.server == server
        }),
{
}

/// A session of a host is drafted with what was settled for it, each setting on its own
/// and whatever else is settled; what was not settled is taken from what was made, or is
/// the public ntfy server. The keys are always those that were made.
pub proof fn law_settings_reach_the_draft(
    init: SessionInitParameters,
    fresh: FreshMaterial,
    draft: Result<HostDraft, OpenLvError>,
)
    requires
        call_ensures(create_session, (init, fresh), draft),
        fresh.key_pair is Ok,
        init.k is Some || fresh.handshake_key is Ok,
    ensures
        draft matches Ok(d) && {
            &&& d.session_id@ == match init.session_id {
                Some(id) => id@,
                None => fresh.session_id@,
            }
            &&& d.key_pair.encryption_key.bytes@ == fresh.key_pair->Ok_0.encryption_key.bytes@
            &&& d.key_pair.decryption_key.bytes@ == fresh.key_pair->Ok_0.decryption_key.bytes@
            &&& d.handshake_key.bytes@ == match init.k {
                Some(key) => key.bytes@,
                None => fresh.handshake_key->Ok_0.bytes@,
            }
            &&& match d.h {
                Some(h) => init.h matches Some(given) && h@ == given@,
                None => init.h is None,
            }
            &&& match init.p {
                Some(p) => {
                    &&& p@ == "ntfy"@ ==> d.protocol is Ntfy
                    &&& p@ == "mqtt"@ ==> d.protocol is Mqtt
                    &&& p@ != "ntfy"@ && p@ != "mqtt"@ ==> d.protocol@ == ProtocolView::Other(p@)
                },
                None => d.protocol is Ntfy,
            }
            &&& d.server@ == match init.s {
                Some(server) => server@,
                None => "https://ntfy.sh/"@,
            }
            &&& match d.info {
                Some(info) => init.info matches Some(given) && crate::json::content(info.details)
                    == crate::json::content(given.details),
                None => init.info is None,
            }
        },
{
    reveal_strlit("ntfy");
    reveal_strlit("mqtt");
    assert("ntfy"@[0] == 'n' && "mqtt"@[0] == 'm');
}

/// A session of a host is not drafted without keys, nor without a handshake key, and then
/// for that reason.
pub proof fn law_host_needs_its_keys(
    init: SessionInitParameters,
    fresh: FreshMaterial,
    draft: Result<HostDraft, OpenLvError>,
)
    requires
        call_ensures(create_session, (init, fresh), draft),
    ensures
        fresh.key_pair matches Err(error) ==> draft == Err::<HostDraft, OpenLvError>(error),
        fresh.key_pair is Ok && init.k is None && fresh.handshake_key is Err ==> draft == Err::<
            HostDraft,
            OpenLvError,
        >(fresh.handshake_key->Err_0),
{
}

/// Whether a peer says of itself that it supports the one transport there is, and gives an
/// identity exactly if it has one.
pub open spec fn offers_itself(capabilities: PeerCapabilities, info: Option<PeerInfo>) -> bool {
    &&& capabilities.transports@.len() == 1
    &&& capabilities.transports@[0]@ == "wrtc"@
    &&& match capabilities.info {
        Some(given) => info matches Some(own) && crate::json::content(given.details)
            == crate::json::content(own.details),
        None => info is None,
    }
}

/// A drafted session of a host opens as a host that nothing has happened to, under a URI
/// that says what was drafted. Its channel is opened with the same, and its signaling
/// layer is given the hash, the role that follows from it, and the keys.
pub proof fn law_host_opens_as_drafted(
    draft: HostDraft,
    init_hash: Result<InitHash, OpenLvError>,
    key_hash: PublicKeyHash,
    setup: Result<HostSetup, OpenLvError>,
)
    requires
        call_ensures(HostDraft::open, (draft, init_hash, key_hash), setup),
    ensures
        match init_hash {
            Err(error) => setup == Err::<HostSetup, OpenLvError>(error),
            Ok(hash) => setup matches Ok(s) && {
                &&& s.session@.is_host
                &&& s.session@.status == SessionState::Created
                &&& s.session@.error is None
                &&& s.session@.events_waiting
                &&& s.session@.uri.session_id == draft.session_id@
                &&& s.session@.uri.key_hash == key_hash.0@
                &&& s.session@.uri.handshake_key == draft.handshake_key.bytes@
                &&& s.session@.uri.protocol == draft.protocol@
                &&& s.session@.uri.server == draft.server@
                &&& s.channel.session_id@ == draft.session_id@
                &&& s.channel.protocol@ == draft.protocol@
                &&& s.channel.server@ == draft.server@
                &&& s.properties.is_host == hash.is_host
                &&& s.properties.h@ == hash.hash@
                &&& s.properties.handshake_key matches Some(key) && key.bytes@
                    == draft.handshake_key.bytes@
                &&& s.properties.encryption_key.bytes@ == draft.key_pair.encryption_key.bytes@
                &&& s.properties.decryption_key.bytes@ == draft.key_pair.decryption_key.bytes@
                &&& s.decryption_key.bytes@ == draft.key_pair.decryption_key.bytes@
                &&& offers_itself(s.properties.capabilities, draft.info)
            },
        },
{
    if init_hash is Ok {
        lemma_offer(setup->Ok_0.properties.capabilities, draft.info);
    }
}

/// A session of a client is drafted of its URI and its keys, with its identity if it has
/// one. Without either of the first two it is not, the URI first.
pub proof fn law_client_is_drafted_of_its_url(
    uri: Result<SessionUri, OpenLvError>,
    key_pair: Result<KeyPair, OpenLvError>,
    info: Option<PeerInfo>,
    draft: Result<ClientDraft, OpenLvError>,
    nameless: Result<ClientDraft, OpenLvError>,
)
    requires
        call_ensures(connect_session_with_info, (uri, key_pair, info), draft),
        call_ensures(connect_session, (uri, key_pair), nameless),
    ensures
        uri matches Err(error) ==> draft == Err::<ClientDraft, OpenLvError>(error) && nameless
            == draft,
        uri is Ok && key_pair is Err ==> draft == Err::<ClientDraft, OpenLvError>(key_pair->Err_0)
            && nameless == draft,
        uri is Ok && key_pair is Ok ==> {
            &&& draft matches Ok(d) && d.uri == uri->Ok_0 && d.key_pair == key_pair->Ok_0 && d.info
                == info
            &&& nameless matches Ok(d) && d.uri == uri->Ok_0 && d.key_pair == key_pair->Ok_0
                && d.info is None
        },
{
}

/// A drafted session of a client asks for its hash with the key hash of its URI, and opens
/// under that URI in the role that follows from the hash, which its signaling layer takes
/// too, with the keys that were made.
pub proof fn law_client_opens_as_drafted(
    draft: ClientDraft,
    input: &str,
    init_hash: Result<InitHash, OpenLvError>,
    setup: Result<ClientSetup, OpenLvError>,
)
    requires
        call_ensures(ClientDraft::hash_input, (&draft,), input),
        call_ensures(ClientDraft::open, (draft, init_hash), setup),
    ensures
        input@ == draft.uri->Version1_0.key_hash.0@,
        match init_hash {
            Err(error) => setup == Err::<ClientSetup, OpenLvError>(error),
            Ok(hash) => setup matches Ok(s) && {
                &&& s.is_host == hash.is_host
                &&& s.session@.is_host == hash.is_host
                &&& s.session@.status == SessionState::Created
                &&& s.session@.error is None
                &&& s.session@.events_waiting
                &&& s.session@.uri == draft.uri@
                &&& s.version1@ == draft.uri@
                &&& s.encryption_key.bytes@ == draft.key_pair.encryption_key.bytes@
                &&& s.decryption_key.bytes@ == draft.key_pair.decryption_key.bytes@
                &&& offers_itself(s.capabilities, draft.info)
            },
        },
{
    if init_hash is Ok {
        lemma_offer(setup->Ok_0.capabilities, draft.info);
    }
}

proof fn lemma_offer(capabilities: PeerCapabilities, info: Option<PeerInfo>)
    requires
        capabilities@ == offered(crate::signaling::opt_info(info)),
    ensures
        offers_itself(capabilities, info),
{
    let texts = crate::text::string_texts(capabilities.transports@);
    assert(texts == seq!["wrtc"@]);
    assert(texts.len() == 1);
    assert(texts[0] == capabilities.transports@[0]@);
}

} // verus!
