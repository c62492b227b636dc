//! How a session is asked for: by a host with its settings, or by a client with a URL.

use vstd::prelude::*;

use crate::error::{ErrorView, OpenLvError};
use crate::json::Json;
use crate::keys::HandshakeKey;
use crate::signaling::{PeerInfo, ProtocolView, SignalingProtocol};

verus! {

/// The key that is there, if any, as bytes.
pub open spec fn opt_key(key: Option<HandshakeKey>) -> Option<Seq<u8>> {
    match key {
        Some(k) => Some(k@),
        None => None,
    }
}

/// What a host may settle of a new session.
#[derive(Debug)]
pub struct SessionInitParameters {
    pub session_id: Option<String>,
    pub h: Option<String>,
    pub k: Option<HandshakeKey>,
    pub p: Option<String>,
    pub s: Option<String>,
    pub info: Option<PeerInfo>,
}

/// A [`SessionInitParameters`] with its texts as characters.
pub struct InitView {
    pub session_id: Option<Seq<char>>,
    pub h: Option<Seq<char>>,
    pub k: Option<Seq<u8>>,
    pub p: Option<Seq<char>>,
    pub s: Option<Seq<char>>,
    pub info: Option<Json>,
}

impl View for SessionInitParameters {
    type V = InitView;

    open spec fn view(&self) -> InitView {
        InitView {
            session_id: crate::text::opt_text(self.session_id),
            h: crate::text::opt_text(self.h),
            k: opt_key(self.k),
            p: crate::text::opt_text(self.p),
            s: crate::text::opt_text(self.s),
            info: crate::signaling::opt_info(self.info),
        }
    }
}

impl Default for SessionInitParameters {
    fn default() -> (init: Self)
        ensures
            init@ == (InitView {
                session_id: None,
                h: None,
                k: None,
                p: None,
                s: None,
                info: None,
            }),
    {
        SessionInitParameters { session_id: None, h: None, k: None, p: None, s: None, info: None }
    }
}

/// What a session is configured with. [`dapp`] starts the configuration of a host,
/// [`wallet`] that of a client.
#[derive(Debug)]
pub struct SessionConfig {
    connect_url: Option<String>,
    session_id: Option<String>,
    protocol: Option<SignalingProtocol>,
    server: Option<String>,
    handshake_key: Option<HandshakeKey>,
    info: Option<PeerInfo>,
}

/// A [`SessionConfig`] with its texts as characters.
pub struct ConfigView {
    pub connect_url: Option<Seq<char>>,
    pub session_id: Option<Seq<char>>,
    pub protocol: Option<ProtocolView>,
    pub server: Option<Seq<char>>,
    pub handshake_key: Option<Seq<u8>>,
    pub info: Option<Json>,
}

impl View for SessionConfig {
    type V = ConfigView;

    closed spec fn view(&self) -> ConfigView {
        ConfigView {
            connect_url: crate::text::opt_text(self.connect_url),
            session_id: crate::text::opt_text(self.session_id),
            protocol: match self.protocol {
                Some(protocol) => Some(protocol@),
                None => None,
            },
            server: crate::text::opt_text(self.server),
            handshake_key: opt_key(self.handshake_key),
            info: crate::signaling::opt_info(self.info),
        }
    }
}

impl ConfigView {
    /// A configuration with nothing settled.
    pub open spec fn empty() -> Self {
        ConfigView {
            connect_url: None,
            session_id: None,
            protocol: None,
            server: None,
            handshake_key: None,
            info: None,
        }
    }

    /// What a host creates its session with: the public ntfy server, unless settled
    /// otherwise.
    pub open spec fn init_parameters(self) -> InitView {
        InitView {
            session_id: self.session_id,
            h: None,
            k: self.handshake_key,
            p: Some(
                match self.protocol {
                    Some(protocol) => protocol.name(),
                    None => "ntfy"@,
                },
            ),
            s: Some(
                match self.server {
                    Some(server) => server,
                    None => "https://ntfy.sh/"@,
                },
            ),
            info: self.info,
        }
    }

    /// What a configuration comes to. `objection` is what is wrong with its identity.
    pub open spec fn plan(self, objection: Option<Seq<char>>) -> Result<PlanView, ErrorView> {
        if self.info is Some && objection is Some {
            Err(ErrorView::Session(objection->0))
        } else {
            match self.connect_url {
                Some(url) => Ok(PlanView::Connect { url, info: self.info }),
                None => Ok(PlanView::Create(self.init_parameters())),
            }
        }
    }
}

/// What a configuration comes to.
#[derive(Debug)]
pub enum SessionPlan {
    /// Connect to the session of a URL, under an identity.
    Connect { url: String, info: Option<PeerInfo> },
    /// Create a session.
    Create(SessionInitParameters),
}

/// A [`SessionPlan`] with its texts as characters.
pub enum PlanView {
    Connect { url: Seq<char>, info: Option<Json> },
    Create(InitView),
}

impl View for SessionPlan {
    type V = PlanView;

    open spec fn view(&self) -> PlanView {
        match *self {
            SessionPlan::Connect { url, info } => PlanView::Connect {
                url: url@,
                info: crate::signaling::opt_info(info),
            },
            SessionPlan::Create(init) => PlanView::Create(init@),
        }
    }
}

impl Default for SessionConfig {
    fn default() -> (config: Self)
        ensures
            config@ == ConfigView::empty(),
    {
        SessionConfig {
            connect_url: None,
            session_id: None,
            protocol: None,
            server: None,
            handshake_key: None,
            info: None,
        }
    }
}

impl SessionConfig {
    /// Sets a fixed session identifier, of 16 URL-safe characters. One is made if none is
    /// set.
    pub fn session_id(self, id: String) -> (config: Self)
        ensures
            config@ == (ConfigView { session_id: Some(id@), ..self@ }),
    {
        SessionConfig { session_id: Some(id), ..self }
    }

    /// Sets the signaling protocol ("ntfy" or "mqtt").
    pub fn protocol(self, p: SignalingProtocol) -> (config: Self)
        ensures
            config@ == (ConfigView { protocol: Some(p@), ..self@ }),
    {
        SessionConfig { protocol: Some(p), ..self }
    }

    /// Sets the URL of the signaling server.
    pub fn server(self, s: String) -> (config: Self)
        ensures
            config@ == (ConfigView { server: Some(s@), ..self@ }),
    {
        SessionConfig { server: Some(s), ..self }
    }

    /// Sets a handshake key that was shared before.
    pub fn handshake_key(self, k: HandshakeKey) -> (config: Self)
        ensures
            config@ == (ConfigView { handshake_key: Some(k@), ..self@ }),
    {
        SessionConfig { handshake_key: Some(k), ..self }
    }

    /// Sets the identity that is shared with the remote peer during the handshake.
    pub fn info(self, info: PeerInfo) -> (config: Self)
        ensures
            config@ == (ConfigView { info: Some(info@), ..self@ }),
    {
        SessionConfig { info: Some(info), ..self }
    }

    /// Sets the URL to connect to.
    pub(crate) fn connect_url(self, url: String) -> (config: Self)
        ensures
            config@ == (ConfigView { connect_url: Some(url@), ..self@ }),
    {
        SessionConfig { connect_url: Some(url), ..self }
    }

    /// The identity that is set, to be checked before the session is started.
    pub fn identity(&self) -> (info: Option<&PeerInfo>)
        ensures
            self@.info == (match info {
                Some(i) => Some(i@),
                None => None,
            }),
    {
        match &self.info {
            Some(info) => Some(info),
            None => None,
        }
    }

    /// Settles the configuration. `objection` is the reason, if any, why the identity
    /// that is set is not valid.
    pub fn on_request(self, objection: Option<String>) -> (plan: Result<SessionPlan, OpenLvError>)
        ensures
            self@.plan(crate::text::opt_text(objection)) == (match plan {
                Ok(p) => Ok::<PlanView, ErrorView>(p@),
                Err(e) => Err(e@),
            }),
    {
        if self.info.is_some() {
            if let Some(reason) = objection {
                return Err(OpenLvError::Session(reason));
            }
        }
        match self.connect_url {
            Some(url) => Ok(SessionPlan::Connect { url, info: self.info }),
            None => {
                let protocol = match self.protocol {
                    Some(p) => p.name(),
                    None => "ntfy".to_owned(),
                };
                let server = match self.server {
                    Some(s) => s,
                    None => "https://ntfy.sh/".to_owned(),
                };
                Ok(
                    SessionPlan::Create(
                        SessionInitParameters {
                            session_id: self.session_id,
                            h: None,
                            k: self.handshake_key,
                            p: Some(protocol),
                            s: Some(server),
                            info: self.info,
                        },
                    ),
                )
            },
        }
    }
}

/// Starts the configuration of a host.
pub fn dapp() -> (config: SessionConfig)
    ensures
        config@ == ConfigView::empty(),
{
    SessionConfig::default()
}

/// Starts the configuration of a client from an `openlv://` URL.
pub fn wallet(url: &str) -> (config: SessionConfig)
    ensures
        config@ == (ConfigView { connect_url: Some(url@), ..ConfigView::empty() }),
{
    SessionConfig::default().connect_url(url.to_owned())
}

/// A configuration with a URL connects to that URL under its identity, whatever else is
/// set in it.
pub proof fn law_url_decides(config: ConfigView, url: Seq<char>, objection: Option<Seq<char>>)
    requires
        config.connect_url == Some(url),
        config.info is None || objection is None,
    ensures
        config.plan(objection) == Ok::<PlanView, ErrorView>(
            PlanView::Connect { url, info: config.info },
        ),
{
}

/// A configuration is refused exactly if it has an identity that is not valid, and then
/// with the reason.
pub proof fn law_only_identity_is_refused(config: ConfigView, objection: Option<Seq<char>>)
    ensures
        config.plan(objection) is Err <==> config.info is Some && objection is Some,
        config.plan(objection) is Err ==> config.plan(objection) == Err::<PlanView, ErrorView>(
            ErrorView::Session(objection->0),
        ),
{
}

/// A configuration starts with nothing settled but, for a client, its URL.
pub proof fn law_configuration_starts_empty(
    url: &str,
    host: SessionConfig,
    client: SessionConfig,
    init: SessionInitParameters,
)
    requires
        call_ensures(dapp, (), host),
        call_ensures(wallet, (url,), client),
        call_ensures(SessionInitParameters::default, (), init),
    ensures
        host@.connect_url is None,
        client@.connect_url == Some(url@),
        forall|config: SessionConfig|
            #![trigger config@]
            config == host || config == client ==> {
                &&& config@.session_id is None
                &&& config@.protocol is None
                &&& config@.server is None
                &&& config@.handshake_key is None
                &&& config@.info is None
            },
        init.session_id is None && init.h is None && init.k is None,
        init.p is None && init.s is None && init.info is None,
{
}

/// Each setting settles what it is for, with what was given, and leaves the others as they
/// were.
pub proof fn law_settings_do_not_interfere(
    config: SessionConfig,
    id: String,
    protocol: SignalingProtocol,
    server: String,
    key: HandshakeKey,
    info: PeerInfo,
    with_id: SessionConfig,
    with_protocol: SessionConfig,
    with_server: SessionConfig,
    with_key: SessionConfig,
    with_info: SessionConfig,
)
    requires
        call_ensures(SessionConfig::session_id, (config, id), with_id),
        call_ensures(SessionConfig::protocol, (config, protocol), with_protocol),
        call_ensures(SessionConfig::server, (config, server), with_server),
        call_ensures(SessionConfig::handshake_key, (config, key), with_key),
        call_ensures(SessionConfig::info, (config, info), with_info),
    ensures
        with_id@.session_id == Some(id@),
        with_protocol@.protocol == Some(protocol@),
        with_server@.server == Some(server@),
        with_key@.handshake_key == Some(key.bytes@),
        with_info@.info == Some(crate::json::content(info.details)),
        forall|changed: SessionConfig|
            #![trigger changed@]
            changed == with_id || changed == with_protocol || changed == with_server || changed
                == with_key || changed == with_info ==> {
                &&& changed@.connect_url == config@.connect_url
                &&& changed == with_id || changed@.session_id == config@.session_id
                &&& changed == with_protocol || changed@.protocol == config@.protocol
                &&& changed == with_server || changed@.server == config@.server
                &&& changed == with_key || changed@.handshake_key == config@.handshake_key
                &&& changed == with_info || changed@.info == config@.info
            },
{
}

/// Whether an identity is the one that a configuration has.
pub open spec fn is_identity_of(info: Option<PeerInfo>, config: SessionConfig) -> bool {
    match info {
        Some(i) => config@.info == Some(crate::json::content(i.details)),
        None => config@.info is None,
    }
}

/// Every setting of a host reaches what its session is created with, on its own and
/// whatever else is settled. Only what is not settled gets a default: the protocol and
/// the server those of the public ntfy server; the session identifier and the handshake
/// key are left to be made. A client is led to its URL, under its identity.
pub proof fn law_settings_reach_the_plan(
    config: SessionConfig,
    objection: Option<String>,
    plan: Result<SessionPlan, OpenLvError>,
)
    requires
        call_ensures(SessionConfig::on_request, (config, objection), plan),
        config@.info is None || objection is None,
    ensures
        plan is Ok,
        config@.connect_url matches Some(url) ==> (plan matches Ok(
            SessionPlan::Connect { url: to, info },
        ) && to@ == url && is_identity_of(info, config)),
        config@.connect_url is None ==> (plan matches Ok(SessionPlan::Create(init)) && {
            &&& match init.session_id {
                Some(id) => config@.session_id == Some(id@),
                None => config@.session_id is None,
            }
            &&& match init.k {
                Some(key) => config@.handshake_key == Some(key.bytes@),
                None => config@.handshake_key is None,
            }
            &&& is_identity_of(init.info, config)
            &&& init.h is None
            &&& init.p matches Some(p) && match config@.protocol {
                Some(ProtocolView::Ntfy) => p@ == "ntfy"@,
                Some(ProtocolView::Mqtt) => p@ == "mqtt"@,
                Some(ProtocolView::Other(name)) => p@ == name,
                None => p@ == "ntfy"@,
            }
            &&& init.s matches Some(s) && match config@.server {
                Some(server) => s@ == server,
                None => s@ == "https://ntfy.sh/"@,
            }
        }),
{
}

/// A configuration whose identity is objected to is refused with the objection, whatever
/// else is settled.
pub proof fn law_objection_refuses_the_plan(
    config: SessionConfig,
    objection: String,
    plan: Result<SessionPlan, OpenLvError>,
)
    requires
        call_ensures(SessionConfig::on_request, (config, Some(objection)), plan),
        config@.info is Some,
    ensures
        plan matches Err(OpenLvError::Session(reason)) && reason@ == objection@,
{
}

/// The identity to be checked is the one that was settled.
pub proof fn law_settled_identity_is_checked(config: SessionConfig, info: Option<&PeerInfo>)
    requires
        call_ensures(SessionConfig::identity, (&config,), info),
    ensures
        match info {
            Some(i) => config@.info == Some(crate::json::content(i.details)),
            None => config@.info is None,
        },
{
}

/// The same on the views: what a host that is not refused creates its session with.
pub proof fn law_each_setting_is_kept(config: ConfigView, objection: Option<Seq<char>>)
    requires
        config.connect_url is None,
        config.info is None || objection is None,
    ensures
        config.plan(objection) matches Ok(PlanView::Create(init)) && {
            &&& init.session_id == config.session_id
            &&& init.k == config.handshake_key
            &&& init.info == config.info
            &&& config.server matches Some(server) ==> init.s == Some(server)
            &&& config.server is None ==> init.s == Some("https://ntfy.sh/"@)
            &&& config.protocol == Some(ProtocolView::Ntfy) ==> init.p == Some("ntfy"@)
            &&& config.protocol == Some(ProtocolView::Mqtt) ==> init.p == Some("mqtt"@)
            &&& config.protocol matches Some(ProtocolView::Other(name)) ==> init.p == Some(name)
            &&& config.protocol is None ==> init.p == Some("ntfy"@)
        },
{
}

} // verus!
