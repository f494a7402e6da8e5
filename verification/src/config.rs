//! Backend-neutral configuration and its mapping onto the two engine shapes.
//!
//! A [`Configuration`] is owned by the caller and translated, just before a
//! connection is created, into the shape the selected engine expects. The
//! translation is pure and total: it keeps the servers in order, keeps every
//! URL, and maps absent credentials onto each engine's own convention (an
//! empty string for the native engine, an absent field for the event-object
//! engine).

use vstd::prelude::*;

verus! {

/// How the credential of an ICE server is to be interpreted.
#[derive(Debug, Copy, Clone, PartialEq, Eq)]
pub enum IceCredentialType {
    Unspecified,
    Password,
    Oauth,
}

impl Default for IceCredentialType {
    /// The default credential type leaves the interpretation open.
    fn default() -> (r: Self)
        ensures
            r == IceCredentialType::Unspecified,
    {
        IceCredentialType::Unspecified
    }
}

/// Which discovered network paths a connection may use.
#[derive(Debug, Copy, Clone, PartialEq, Eq)]
pub enum IceTransportPolicy {
    All,
    Relay,
}

impl Default for IceTransportPolicy {
    /// By default every kind of candidate may be used.
    fn default() -> (r: Self)
        ensures
            r == IceTransportPolicy::All,
    {
        IceTransportPolicy::All
    }
}

/// One ICE server the engines may contact, with optional credentials.
#[derive(Debug, Clone)]
pub struct IceServer {
    pub urls: Vec<String>,
    pub username: Option<String>,
    pub credential: Option<String>,
    pub credential_type: IceCredentialType,
}

/// The mathematical value of an [`IceServer`].
#[verifier::ext_equal]
pub struct IceServerView {
    pub urls: Seq<Seq<char>>,
    pub username: Option<Seq<char>>,
    pub credential: Option<Seq<char>>,
    pub credential_type: IceCredentialType,
}

impl View for IceServer {
    type V = IceServerView;

    open spec fn view(&self) -> IceServerView {
        IceServerView {
            urls: self.urls.deep_view(),
            username: self.username.deep_view(),
            credential: self.credential.deep_view(),
            credential_type: self.credential_type,
        }
    }
}

impl DeepView for IceServer {
    type V = IceServerView;

    open spec fn deep_view(&self) -> IceServerView {
        self.view()
    }
}

impl Default for IceServer {
    /// An empty server entry: no URL and no credentials.
    fn default() -> (r: Self)
        ensures
            r@.urls.len() == 0,
            r@.username is None,
            r@.credential is None,
            r@.credential_type == IceCredentialType::Unspecified,
    {
        IceServer {
            urls: Vec::new(),
            username: None,
            credential: None,
            credential_type: IceCredentialType::Unspecified,
        }
    }
}

/// The caller-facing configuration of a peer connection.
#[derive(Debug, Clone)]
pub struct Configuration {
    pub ice_servers: Vec<IceServer>,
    pub ice_transport_policy: IceTransportPolicy,
}

/// The mathematical value of a [`Configuration`].
#[verifier::ext_equal]
pub struct ConfigurationView {
    pub ice_servers: Seq<IceServerView>,
    pub ice_transport_policy: IceTransportPolicy,
}

impl View for Configuration {
    type V = ConfigurationView;

    open spec fn view(&self) -> ConfigurationView {
        ConfigurationView {
            ice_servers: self.ice_servers.deep_view(),
            ice_transport_policy: self.ice_transport_policy,
        }
    }
}

impl Default for Configuration {
    /// An empty configuration: no servers, every candidate kind allowed.
    fn default() -> (r: Self)
        ensures
            r@.ice_servers.len() == 0,
            r@.ice_transport_policy == IceTransportPolicy::All,
    {
        Configuration { ice_servers: Vec::new(), ice_transport_policy: IceTransportPolicy::All }
    }
}

/// One ICE server in the shape the native engine takes: absent credentials
/// become empty strings, and the credential type is not part of the shape.
#[derive(Debug, Clone)]
pub struct NativeIceServer {
    pub urls: Vec<String>,
    pub username: String,
    pub credential: String,
}

/// The mathematical value of a [`NativeIceServer`].
#[verifier::ext_equal]
pub struct NativeIceServerView {
    pub urls: Seq<Seq<char>>,
    pub username: Seq<char>,
    pub credential: Seq<char>,
}

impl View for NativeIceServer {
    type V = NativeIceServerView;

    open spec fn view(&self) -> NativeIceServerView {
        NativeIceServerView {
            urls: self.urls.deep_view(),
            username: self.username@,
            credential: self.credential@,
        }
    }
}

impl DeepView for NativeIceServer {
    type V = NativeIceServerView;

    open spec fn deep_view(&self) -> NativeIceServerView {
        self.view()
    }
}

/// A configuration in the shape the native engine takes.
#[derive(Debug, Clone)]
pub struct NativeConfiguration {
    pub ice_servers: Vec<NativeIceServer>,
    pub ice_transport_policy: IceTransportPolicy,
}

/// The mathematical value of a [`NativeConfiguration`].
#[verifier::ext_equal]
pub struct NativeConfigurationView {
    pub ice_servers: Seq<NativeIceServerView>,
    pub ice_transport_policy: IceTransportPolicy,
}

impl View for NativeConfiguration {
    type V = NativeConfigurationView;

    open spec fn view(&self) -> NativeConfigurationView {
        NativeConfigurationView {
            ice_servers: self.ice_servers.deep_view(),
            ice_transport_policy: self.ice_transport_policy,
        }
    }
}

/// One ICE server in the shape the event-object engine takes: credentials
/// stay optional (an absent field), and the credential type is dropped.
#[derive(Debug, Clone)]
pub struct WebIceServer {
    pub urls: Vec<String>,
    pub username: Option<String>,
    pub credential: Option<String>,
}

/// The mathematical value of a [`WebIceServer`].
#[verifier::ext_equal]
pub struct WebIceServerView {
    pub urls: Seq<Seq<char>>,
    pub username: Option<Seq<char>>,
    pub credential: Option<Seq<char>>,
}

impl View for WebIceServer {
    type V = WebIceServerView;

    open spec fn view(&self) -> WebIceServerView {
        WebIceServerView {
            urls: self.urls.deep_view(),
            username: self.username.deep_view(),
            credential: self.credential.deep_view(),
        }
    }
}

impl DeepView for WebIceServer {
    type V = WebIceServerView;

    open spec fn deep_view(&self) -> WebIceServerView {
        self.view()
    }
}

/// A configuration in the shape the event-object engine takes.
#[derive(Debug, Clone)]
pub struct WebConfiguration {
    pub ice_servers: Vec<WebIceServer>,
    pub ice_transport_policy: IceTransportPolicy,
}

/// The mathematical value of a [`WebConfiguration`].
#[verifier::ext_equal]
pub struct WebConfigurationView {
    pub ice_servers: Seq<WebIceServerView>,
    pub ice_transport_policy: IceTransportPolicy,
}

impl View for WebConfiguration {
    type V = WebConfigurationView;

    open spec fn view(&self) -> WebConfigurationView {
        WebConfigurationView {
            ice_servers: self.ice_servers.deep_view(),
            ice_transport_policy: self.ice_transport_policy,
        }
    }
}

/// What the native engine is handed for one server: URLs kept as they are,
/// absent credentials mapped to the empty string.
pub open spec fn native_server_of(s: IceServerView) -> NativeIceServerView {
    NativeIceServerView {
        urls: s.urls,
        username: match s.username {
            Some(u) => u,
            None => Seq::empty(),
        },
        credential: match s.credential {
            Some(c) => c,
            None => Seq::empty(),
        },
    }
}

/// What the whole native configuration looks like for a given configuration.
pub open spec fn native_configuration_of(c: ConfigurationView) -> NativeConfigurationView {
    NativeConfigurationView {
        ice_servers: c.ice_servers.map_values(|s: IceServerView| native_server_of(s)),
        ice_transport_policy: c.ice_transport_policy,
    }
}

/// What the event-object engine is handed for one server: URLs and the
/// optional credentials kept as they are, the credential type dropped.
pub open spec fn web_server_of(s: IceServerView) -> WebIceServerView {
    WebIceServerView { urls: s.urls, username: s.username, credential: s.credential }
}

/// What the whole event-object configuration looks like.
pub open spec fn web_configuration_of(c: ConfigurationView) -> WebConfigurationView {
    WebConfigurationView {
        ice_servers: c.ice_servers.map_values(|s: IceServerView| web_server_of(s)),
        ice_transport_policy: c.ice_transport_policy,
    }
}

/// A copy of a vector of strings, string by string.
fn clone_strings(v: &Vec<String>) -> (r: Vec<String>)
    ensures
        r.deep_view() == v.deep_view(),
{
    let mut r: Vec<String> = Vec::new();
    let n = v.len();
    for i in 0..n
        invariant
            n == v.len(),
            r.len() == i,
            forall|j: int| 0 <= j < i ==> r.deep_view()[j] == v.deep_view()[j],
    {
        r.push(v[i].clone());
    }
    proof {
        assert(r.deep_view() =~= v.deep_view());
    }
    r
}

/// A copy of an optional string.
pub(crate) fn clone_opt_string(v: &Option<String>) -> (r: Option<String>)
    ensures
        r.deep_view() == v.deep_view(),
{
    match v {
        Some(s) => Some(s.clone()),
        None => None,
    }
}

impl Configuration {
    /// Translates the configuration into the native engine's shape.
    ///
    /// The translation is total: every server is kept, in order, with every
    /// URL; an unset username or credential becomes the empty string.
    pub fn to_native(&self) -> (r: NativeConfiguration)
        ensures
            r@ == native_configuration_of(self@),
    {
        let mut servers: Vec<NativeIceServer> = Vec::new();
        let n = self.ice_servers.len();
        for i in 0..n
            invariant
                n == self.ice_servers.len(),
                servers.len() == i,
                forall|j: int|
                    0 <= j < i ==> servers.deep_view()[j] == native_server_of(
                        self@.ice_servers[j],
                    ),
        {
            let s = &self.ice_servers[i];
            let urls = clone_strings(&s.urls);
            let username = match &s.username {
                Some(u) => u.clone(),
                None => String::new(),
            };
            let credential = match &s.credential {
                Some(c) => c.clone(),
                None => String::new(),
            };
            let mapped = NativeIceServer { urls, username, credential };
            proof {
                assert(mapped@ =~= native_server_of(self@.ice_servers[i as int]));
            }
            let ghost old_servers = servers;
            servers.push(mapped);
            proof {
                assert forall|j: int|
                    0 <= j < i + 1 implies servers.deep_view()[j] == native_server_of(
                    self@.ice_servers[j],
                ) by {
                    if j < i {
                        assert(old_servers.deep_view()[j] == native_server_of(
                            self@.ice_servers[j],
                        ));
                        assert(servers@[j] == old_servers@[j]);
                        assert(servers.deep_view()[j] == old_servers.deep_view()[j]);
                    } else {
                        assert(servers@[j] == mapped);
                        assert(servers.deep_view()[j] == mapped@);
                    }
                }
            }
        }
        let r = NativeConfiguration {
            ice_servers: servers,
            ice_transport_policy: self.ice_transport_policy,
        };
        proof {
            assert(r@.ice_servers =~= native_configuration_of(self@).ice_servers);
            assert(r@ =~= native_configuration_of(self@));
        }
        r
    }

    /// Translates the configuration into the event-object engine's shape.
    ///
    /// The translation is total: every server is kept, in order, with every
    /// URL and with its optional credentials; the credential type is not
    /// part of that shape and is dropped.
    pub fn to_web(&self) -> (r: WebConfiguration)
        ensures
            r@ == web_configuration_of(self@),
    {
        let mut servers: Vec<WebIceServer> = Vec::new();
        let n = self.ice_servers.len();
        for i in 0..n
            invariant
                n == self.ice_servers.len(),
                servers.len() == i,
                forall|j: int|
                    0 <= j < i ==> servers.deep_view()[j] == web_server_of(self@.ice_servers[j]),
        {
            let s = &self.ice_servers[i];
            let mapped = WebIceServer {
                urls: clone_strings(&s.urls),
                username: clone_opt_string(&s.username),
                credential: clone_opt_string(&s.credential),
            };
            proof {
                assert(mapped@ =~= web_server_of(self@.ice_servers[i as int]));
            }
            let ghost old_servers = servers;
            servers.push(mapped);
            proof {
                assert forall|j: int|
                    0 <= j < i + 1 implies servers.deep_view()[j] == web_server_of(
                    self@.ice_servers[j],
                ) by {
                    if j < i {
                        assert(old_servers.deep_view()[j] == web_server_of(self@.ice_servers[j]));
                        assert(servers@[j] == old_servers@[j]);
                        assert(servers.deep_view()[j] == old_servers.deep_view()[j]);
                    } else {
                        assert(servers@[j] == mapped);
                        assert(servers.deep_view()[j] == mapped@);
                    }
                }
            }
        }
        let r = WebConfiguration {
            ice_servers: servers,
            ice_transport_policy: self.ice_transport_policy,
        };
        proof {
            assert(r@.ice_servers =~= web_configuration_of(self@).ice_servers);
            assert(r@ =~= web_configuration_of(self@));
        }
        r
    }
}

/// Law: the native translation preserves the order and the count of the
/// servers, never drops a URL, and keeps the transport policy.
pub proof fn lemma_to_native_preserves_servers(c: ConfigurationView)
    ensures
        native_configuration_of(c).ice_servers.len() == c.ice_servers.len(),
        forall|i: int|
            0 <= i < c.ice_servers.len() ==> #[trigger] native_configuration_of(
                c,
            ).ice_servers[i].urls == c.ice_servers[i].urls,
        native_configuration_of(c).ice_transport_policy == c.ice_transport_policy,
{
}

/// Law: the event-object translation preserves the order and the count of
/// the servers, never drops a URL, and keeps the transport policy.
pub proof fn lemma_to_web_preserves_servers(c: ConfigurationView)
    ensures
        web_configuration_of(c).ice_servers.len() == c.ice_servers.len(),
        forall|i: int|
            0 <= i < c.ice_servers.len() ==> #[trigger] web_configuration_of(c).ice_servers[i].urls
                == c.ice_servers[i].urls,
        web_configuration_of(c).ice_transport_policy == c.ice_transport_policy,
{
}

} // verus!
