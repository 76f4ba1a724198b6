//! Endpoint configuration: what an endpoint is made from, and the forms in
//! which the transport takes it.

use crate::address::SocketAddress;
use crate::client::Client;
use crate::error::SetupError;
use crate::identity::{
    all_decoded, certificate_chain, decoded, identity_of, lemma_decoded_all, pem_certificates,
    read_pem_certificates, KeyFormat, KeySearchView, PrivateKey, PrivateKeyView, ServerIdentity,
    ServerIdentityView,
};
use crate::server::Server;
use crate::transport::{
    settings_for, transport_config, transport_settings, TransportParams, TransportSettings,
};
use rustls::pki_types::{CertificateDer, PrivateKeyDer};
use std::sync::Arc;
use vstd::prelude::*;

verus! {

/// The side that an endpoint takes.
#[derive(Clone, Copy, Debug, PartialEq, Eq, Structural)]
pub enum Role {
    Server,
    Client,
}

/// What an endpoint proves its identity with, or checks that of its peer
/// against.
#[derive(Clone, Debug, PartialEq, Eq)]
pub enum IdentityMaterial {
    /// A server's chain and key.
    Server(ServerIdentity),
    /// The DER bytes of the certificates that a client trusts as roots.
    TrustedRoots(Vec<Vec<u8>>),
}

/// Model of [`IdentityMaterial`].
pub enum IdentityMaterialView {
    Server(ServerIdentityView),
    TrustedRoots(Seq<Seq<u8>>),
}

impl View for IdentityMaterial {
    type V = IdentityMaterialView;

    open spec fn view(&self) -> IdentityMaterialView {
        match self {
            IdentityMaterial::Server(identity) => IdentityMaterialView::Server(identity@),
            IdentityMaterial::TrustedRoots(roots) => IdentityMaterialView::TrustedRoots(
                roots.deep_view(),
            ),
        }
    }
}

/// What an endpoint is made from. Once built it is not changed.
#[derive(Clone, Debug, PartialEq, Eq)]
pub struct EndpointConfig {
    /// The address that the endpoint binds.
    pub bind_address: SocketAddress,
    /// The identity material, which also tells the role.
    pub identity: IdentityMaterial,
    /// The transport parameters, or `None` for the transport's own defaults.
    pub transport: Option<TransportParams>,
}

/// Model of [`EndpointConfig`].
pub struct EndpointConfigView {
    pub bind_address: SocketAddress,
    pub identity: IdentityMaterialView,
    pub transport: Option<TransportParams>,
}

impl View for EndpointConfig {
    type V = EndpointConfigView;

    open spec fn view(&self) -> EndpointConfigView {
        EndpointConfigView {
            bind_address: self.bind_address,
            identity: self.identity@,
            transport: self.transport,
        }
    }
}

impl EndpointConfigView {
    /// The side that the endpoint takes.
    pub open spec fn role(self) -> Role {
        match self.identity {
            IdentityMaterialView::Server(_) => Role::Server,
            IdentityMaterialView::TrustedRoots(_) => Role::Client,
        }
    }

    /// A configuration is well formed when an endpoint can be made from it.
    /// A server has a certificate to show, admits no unidirectional stream
    /// and has a liveness mechanism in force. A client has a root to trust.
    pub open spec fn wf(self) -> bool {
        match self.identity {
            IdentityMaterialView::Server(identity) => {
                &&& identity.wf()
                &&& self.transport matches Some(params) && params.fits_server()
            },
            IdentityMaterialView::TrustedRoots(roots) => roots.len() > 0,
        }
    }
}

impl EndpointConfig {
    /// The side that the endpoint takes.
    pub fn role(&self) -> (role: Role)
        ensures
            role == self@.role(),
    {
        match self.identity {
            IdentityMaterial::Server(_) => Role::Server,
            IdentityMaterial::TrustedRoots(_) => Role::Client,
        }
    }
}

/// Declares `quinn::ServerConfig`, whose values are opaque here.
#[verifier::external_type_specification]
#[verifier::external_body]
pub struct ExServerConfig(quinn::ServerConfig);

/// Declares `quinn::ClientConfig`, whose values are opaque here.
#[verifier::external_type_specification]
#[verifier::external_body]
pub struct ExClientConfig(quinn::ClientConfig);

/// Declares `rustls::Error`, whose values are opaque here.
#[verifier::external_type_specification]
#[verifier::external_body]
pub struct ExTlsError(rustls::Error);

/// Declares `rustls::client::VerifierBuilderError`, whose values are opaque here.
#[verifier::external_type_specification]
#[verifier::external_body]
pub struct ExVerifierBuilderError(rustls::client::VerifierBuilderError);

/// Declares `rustls::RootCertStore`, whose values are opaque here.
#[verifier::external_type_specification]
#[verifier::external_body]
pub struct ExRootCertStore(rustls::RootCertStore);

/// A server endpoint that is ready to be bound: its configuration, and the
/// same in the form in which the transport takes it.
#[derive(Debug)]
pub struct ServerEndpoint {
    pub config: EndpointConfig,
    pub tls: quinn::ServerConfig,
}

/// A client endpoint that is ready to be bound: its configuration, and the
/// same in the form in which the transport takes it.
#[derive(Debug)]
pub struct ClientEndpoint {
    pub config: EndpointConfig,
    pub tls: quinn::ClientConfig,
}

/// Whether the TLS layer takes `key` as the private key of the first
/// certificate of `chain`.
pub uninterp spec fn tls_accepts_identity(chain: Seq<Seq<u8>>, key: PrivateKeyView) -> bool;

/// What a certificate is trusted as, once it is taken for a root.
pub struct TrustAnchorView {
    pub subject: Seq<u8>,
    pub subject_public_key_info: Seq<u8>,
    pub name_constraints: Option<Seq<u8>>,
}

/// The trust anchor that the certificate with the DER bytes `der` gives, or
/// `None` where the bytes cannot serve as a trusted root.
pub uninterp spec fn trust_anchor(der: Seq<u8>) -> Option<TrustAnchorView>;

/// The trust anchors that `store` holds, in the order in which they were
/// added.
pub uninterp spec fn trust_anchors(store: rustls::RootCertStore) -> Seq<TrustAnchorView>;

/// The identity that `tls` serves: the chain that it presents to every
/// client, and the private key that it signs with.
pub uninterp spec fn server_identity(tls: quinn::ServerConfig) -> ServerIdentityView;

/// The settings of the transport configuration that `tls` holds.
pub uninterp spec fn server_transport(tls: quinn::ServerConfig) -> TransportSettings;

/// The trust anchors against which `tls` checks the certificate of a server.
pub uninterp spec fn client_trust(tls: quinn::ClientConfig) -> Seq<TrustAnchorView>;

/// Model of [`ServerEndpoint`]: the configuration, and what the form for the
/// transport serves and holds.
pub struct ServerEndpointView {
    pub config: EndpointConfigView,
    pub identity: ServerIdentityView,
    pub transport: TransportSettings,
}

/// Model of [`ClientEndpoint`]: the configuration, and what the form for the
/// transport trusts.
pub struct ClientEndpointView {
    pub config: EndpointConfigView,
    pub trust: Seq<TrustAnchorView>,
}

impl View for ServerEndpoint {
    type V = ServerEndpointView;

    open spec fn view(&self) -> ServerEndpointView {
        ServerEndpointView {
            config: self.config@,
            identity: server_identity(self.tls),
            transport: server_transport(self.tls),
        }
    }
}

impl View for ClientEndpoint {
    type V = ClientEndpointView;

    open spec fn view(&self) -> ClientEndpointView {
        ClientEndpointView { config: self.config@, trust: client_trust(self.tls) }
    }
}

/// Calls `quinn::ServerConfig::with_single_cert` with copies of `chain` and
/// `key`.
///
/// Trusted: whether the call succeeds is a function of the chain and the key
/// alone, which [`tls_accepts_identity`] names, and a configuration that is
/// made serves that chain with that key. Nothing else is claimed of the
/// configuration, which holds a token key drawn at random.
#[verifier::external_body]
fn server_config_with_single_cert(chain: &Vec<Vec<u8>>, key: &PrivateKey) -> (tls: Result<
    quinn::ServerConfig,
    rustls::Error,
>)
    ensures
        tls is Ok == tls_accepts_identity(chain.deep_view(), key@),
        tls matches Ok(made) ==> server_identity(made) == (ServerIdentityView {
            chain: chain.deep_view(),
            key: key@,
        }),
{
    let chain = chain.iter().map(|der| CertificateDer::from(der.clone())).collect();
    let key = match key.format {
        KeyFormat::Pkcs1 => PrivateKeyDer::Pkcs1(key.der.clone().into()),
        KeyFormat::Sec1 => PrivateKeyDer::Sec1(key.der.clone().into()),
        KeyFormat::Pkcs8 => PrivateKeyDer::Pkcs8(key.der.clone().into()),
    };
    quinn::ServerConfig::with_single_cert(chain, key)
}

/// Calls `quinn::ServerConfig::transport_config` with `transport`.
///
/// Trusted: the configuration then holds `transport` for its transport
/// configuration, and serves the identity that it served.
#[verifier::external_body]
fn set_transport_config(tls: &mut quinn::ServerConfig, transport: quinn::TransportConfig)
    ensures
        server_transport(*final(tls)) == transport_settings(transport),
        server_identity(*final(tls)) == server_identity(*old(tls)),
{
    tls.transport_config(Arc::new(transport));
}

/// Calls `rustls::RootCertStore::empty`.
///
/// Trusted: the store holds no trust anchor.
#[verifier::external_body]
fn empty_root_store() -> (store: rustls::RootCertStore)
    ensures
        trust_anchors(store) == Seq::<TrustAnchorView>::empty(),
{
    rustls::RootCertStore::empty()
}

/// Calls `rustls::RootCertStore::add` with the certificate `der`.
///
/// Trusted: the call succeeds where the bytes give a trust anchor, which
/// [`trust_anchor`] names, and the store then holds that anchor after those
/// it held; otherwise the call fails and the store holds what it held.
#[verifier::external_body]
fn add_root(store: &mut rustls::RootCertStore, der: &Vec<u8>) -> (added: Result<
    (),
    rustls::Error,
>)
    ensures
        added is Ok == trust_anchor(der@) is Some,
        trust_anchors(*final(store)) == match trust_anchor(der@) {
            Some(anchor) => trust_anchors(*old(store)).push(anchor),
            None => trust_anchors(*old(store)),
        },
{
    store.add(CertificateDer::from(der.as_slice()))
}

/// Calls `quinn::ClientConfig::with_root_certificates` with `store`.
///
/// Trusted: the call succeeds where the store holds a trust anchor, and
/// fails where it holds none; a configuration that is made checks servers
/// against the anchors of the store. Nothing else is claimed of the
/// configuration.
#[verifier::external_body]
fn client_config_with_roots(store: rustls::RootCertStore) -> (tls: Result<
    quinn::ClientConfig,
    rustls::client::VerifierBuilderError,
>)
    ensures
        tls is Ok == (trust_anchors(store).len() > 0),
        tls matches Ok(made) ==> client_trust(made) == trust_anchors(store),
{
    quinn::ClientConfig::with_root_certificates(Arc::new(store))
}

/// The endpoint of `server` with `identity`, or why there is none;
/// `accepted` says whether the TLS layer takes the identity.
///
/// An identity without a certificate is refused before anything else, then a
/// liveness mechanism that is not in force, then an identity that the TLS
/// layer does not take. An endpoint that is set up binds the address of the
/// server, serves the identity, and holds the transport settings of a server
/// with the server's liveness mechanism.
pub open spec fn server_setup(
    server: Server,
    identity: ServerIdentityView,
    accepted: bool,
) -> Result<ServerEndpointView, SetupError> {
    if identity.chain.len() == 0 {
        Err(SetupError::MissingCertificate)
    } else if !server.liveness.in_force() {
        Err(SetupError::NoLiveness)
    } else if !accepted {
        Err(SetupError::RejectedIdentity)
    } else {
        Ok(
            ServerEndpointView {
                config: EndpointConfigView {
                    bind_address: server.server_addr,
                    identity: IdentityMaterialView::Server(identity),
                    transport: Some(TransportParams::server(server.liveness)),
                },
                identity,
                transport: settings_for(TransportParams::server(server.liveness)),
            },
        )
    }
}

/// Whether each of `roots` gives a trust anchor.
pub open spec fn all_trust_anchors(roots: Seq<Seq<u8>>) -> bool {
    forall|i: int| 0 <= i < roots.len() ==> trust_anchor(#[trigger] roots[i]) is Some
}

/// The trust anchors that `roots` give, in order, where each gives one.
pub open spec fn anchors_of(roots: Seq<Seq<u8>>) -> Seq<TrustAnchorView> {
    Seq::new(roots.len(), |i: int| trust_anchor(roots[i])->Some_0)
}

/// The endpoint of a client that binds `bind_address`, given the certificate
/// sections of the text of its trusted roots, or why there is none.
///
/// One section that did not decode spoils the text and is refused before
/// anything else, then a root that gives no trust anchor, then the lack of
/// any root. An endpoint that is set up checks servers against the anchors
/// of all roots of the text, in order, and against no other.
pub open spec fn client_setup(bind_address: SocketAddress, items: Seq<Option<Seq<u8>>>) -> Result<
    ClientEndpointView,
    SetupError,
> {
    if !all_decoded(items) {
        Err(SetupError::MalformedPem)
    } else if !all_trust_anchors(decoded(items)) {
        Err(SetupError::InvalidRootCertificate)
    } else if decoded(items).len() == 0 {
        Err(SetupError::NoTrustedRoots)
    } else {
        Ok(
            ClientEndpointView {
                config: EndpointConfigView {
                    bind_address,
                    identity: IdentityMaterialView::TrustedRoots(decoded(items)),
                    transport: None,
                },
                trust: anchors_of(decoded(items)),
            },
        )
    }
}

/// Model of a server endpoint, or of the error in its place.
pub open spec fn server_endpoint_view(result: Result<ServerEndpoint, SetupError>) -> Result<
    ServerEndpointView,
    SetupError,
> {
    match result {
        Ok(endpoint) => Ok(endpoint@),
        Err(error) => Err(error),
    }
}

/// Model of a client endpoint, or of the error in its place.
pub open spec fn client_endpoint_view(result: Result<ClientEndpoint, SetupError>) -> Result<
    ClientEndpointView,
    SetupError,
> {
    match result {
        Ok(endpoint) => Ok(endpoint@),
        Err(error) => Err(error),
    }
}

/// The server endpoint for `config`, given what the TLS layer made of its
/// identity. Where the TLS layer took the identity, the endpoint has
/// `config` for its configuration and serves the identity that the TLS
/// layer was given; the transport parameters of `config` are set in it, or,
/// where `config` has none, it is left as the TLS layer made it. Where the
/// TLS layer did not take the identity, the result is
/// [`SetupError::RejectedIdentity`].
pub fn server_endpoint(
    config: EndpointConfig,
    tls: Result<quinn::ServerConfig, rustls::Error>,
) -> (result: Result<ServerEndpoint, SetupError>)
    ensures
        match tls {
            Ok(made) => {
                &&& result matches Ok(endpoint)
                &&& endpoint.config@ == config@
                &&& server_identity(endpoint.tls) == server_identity(made)
                &&& match config.transport {
                    Some(params) => server_transport(endpoint.tls) == settings_for(params),
                    None => endpoint.tls == made,
                }
            },
            Err(_) => result matches Err(error) && error == SetupError::RejectedIdentity,
        },
{
    match tls {
        Ok(mut tls) => {
            match &config.transport {
                Some(params) => set_transport_config(&mut tls, transport_config(params)),
                None => {},
            }
            Ok(ServerEndpoint { config, tls })
        },
        Err(_) => Err(SetupError::RejectedIdentity),
    }
}

/// The client endpoint for `config`, given what the TLS layer made of its
/// roots: the endpoint with `config` and with what the TLS layer made, as it
/// made it, where it took the roots, and [`SetupError::NoTrustedRoots`]
/// where it did not.
pub fn client_endpoint(
    config: EndpointConfig,
    tls: Result<quinn::ClientConfig, rustls::client::VerifierBuilderError>,
) -> (result: Result<ClientEndpoint, SetupError>)
    ensures
        match tls {
            Ok(made) => {
                &&& result matches Ok(endpoint)
                &&& endpoint.config@ == config@
                &&& endpoint.tls == made
            },
            Err(_) => result matches Err(error) && error == SetupError::NoTrustedRoots,
        },
{
    match tls {
        Ok(tls) => Ok(ClientEndpoint { config, tls }),
        Err(_) => Err(SetupError::NoTrustedRoots),
    }
}

/// A store that trusts `roots`, each of which must give a trust anchor: the
/// store then holds their anchors in order. Where one gives none, the result
/// is [`SetupError::InvalidRootCertificate`].
pub fn trusted_root_store(roots: &Vec<Vec<u8>>) -> (result: Result<
    rustls::RootCertStore,
    SetupError,
>)
    ensures
        match result {
            Ok(store) => all_trust_anchors(roots.deep_view()) && trust_anchors(store) == anchors_of(
                roots.deep_view(),
            ),
            Err(error) => !all_trust_anchors(roots.deep_view()) && error
                == SetupError::InvalidRootCertificate,
        },
{
    let ghost model = roots.deep_view();
    let mut store = empty_root_store();
    assert(trust_anchors(store) =~= anchors_of(model.take(0)));
    for i in 0..roots.len()
        invariant
            model == roots.deep_view(),
            all_trust_anchors(model.take(i as int)),
            trust_anchors(store) == anchors_of(model.take(i as int)),
    {
        assert(roots[i as int].deep_view() =~= roots[i as int]@);
        assert(model[i as int] == roots[i as int]@);
        match add_root(&mut store, &roots[i]) {
            Ok(()) => {},
            Err(_) => {
                assert(!(trust_anchor(model[i as int]) is Some));
                return Err(SetupError::InvalidRootCertificate);
            },
        }
        proof {
            assert forall|j: int| 0 <= j < i + 1 implies trust_anchor(
                #[trigger] model.take(i + 1)[j],
            ) is Some by {
                if j < i {
                    assert(model.take(i as int)[j] == model[j]);
                }
            }
            assert(trust_anchors(store) =~= anchors_of(model.take(i + 1))) by {
                assert forall|j: int| 0 <= j < i implies anchors_of(model.take(i as int))[j]
                    == anchors_of(model.take(i + 1))[j] by {
                    assert(model.take(i as int)[j] == model.take(i + 1)[j]);
                }
            }
        }
    }
    assert(model.take(roots.len() as int) =~= model);
    Ok(store)
}

impl Server {
    /// Makes the endpoint of this server ready to be bound: the identity is
    /// handed to the TLS layer, and the transport is told to admit no
    /// unidirectional stream and to use this server's liveness mechanism.
    ///
    /// The result is the endpoint that [`server_setup`] gives, or the error
    /// that it gives. No endpoint is described, and so none can be bound,
    /// unless the identity holds a certificate and is accepted.
    pub fn setup_server_endpoint(&self, identity: ServerIdentity) -> (result: Result<
        ServerEndpoint,
        SetupError,
    >)
        ensures
            server_endpoint_view(result) == server_setup(
                *self,
                identity@,
                tls_accepts_identity(identity@.chain, identity@.key),
            ),
            result matches Ok(endpoint) ==> endpoint.config@.wf(),
    {
        if identity.chain.len() == 0 {
            return Err(SetupError::MissingCertificate);
        }
        if !self.liveness.in_force() {
            return Err(SetupError::NoLiveness);
        }
        let tls = server_config_with_single_cert(&identity.chain, &identity.key);
        let config = EndpointConfig {
            bind_address: self.server_addr,
            identity: IdentityMaterial::Server(identity),
            transport: Some(TransportParams::server(self.liveness)),
        };
        server_endpoint(config, tls)
    }
}

impl Client {
    /// Makes the endpoint of this client ready to be bound, from the PEM
    /// text of the certificates that it is to trust as roots.
    ///
    /// The result is the endpoint that [`client_setup`] gives for the
    /// certificate sections of the text, or the error that it gives. A
    /// stretch of the text that does not decode is fatal, as for a server.
    pub fn setup_client_endpoint(&self, roots_pem: &[u8]) -> (result: Result<
        ClientEndpoint,
        SetupError,
    >)
        ensures
            client_endpoint_view(result) == client_setup(
                self.client_addr,
                pem_certificates(roots_pem@),
            ),
            result matches Ok(endpoint) ==> endpoint.config@.wf(),
    {
        let items = read_pem_certificates(roots_pem);
        proof {
            if all_decoded(items.deep_view()) {
                lemma_decoded_all(items.deep_view());
            }
        }
        let roots = match certificate_chain(&items) {
            Ok(roots) => roots,
            Err(SetupError::MissingCertificate) => return Err(SetupError::NoTrustedRoots),
            Err(error) => return Err(error),
        };
        let store = match trusted_root_store(&roots) {
            Ok(store) => store,
            Err(error) => return Err(error),
        };
        let tls = client_config_with_roots(store);
        let config = EndpointConfig {
            bind_address: self.client_addr,
            identity: IdentityMaterial::TrustedRoots(roots),
            transport: None,
        };
        client_endpoint(config, tls)
    }
}

/// Without a certificate there is no server endpoint. A certificate text
/// that holds no certificate gives no identity, whatever the key text holds,
/// and an identity whose chain is empty gives no endpoint, whatever the
/// server and whatever the TLS layer would say of the key: both fail with
/// [`SetupError::MissingCertificate`]. As only an endpoint that was set up
/// can be bound, no socket is bound.
pub proof fn lemma_missing_certificate_is_fatal(
    found: KeySearchView,
    server: Server,
    identity: ServerIdentityView,
    accepted: bool,
)
    requires
        identity.chain.len() == 0,
    ensures
        identity_of(Seq::empty(), found) == Err::<ServerIdentityView, SetupError>(
            SetupError::MissingCertificate,
        ),
        server_setup(server, identity, accepted) == Err::<ServerEndpointView, SetupError>(
            SetupError::MissingCertificate,
        ),
{
}

/// A text of trusted roots with a stretch that does not decode gives no
/// client endpoint, whatever else it holds: setup fails with
/// [`SetupError::MalformedPem`].
pub proof fn lemma_malformed_roots_are_fatal(
    bind_address: SocketAddress,
    items: Seq<Option<Seq<u8>>>,
)
    requires
        !all_decoded(items),
    ensures
        client_setup(bind_address, items) == Err::<ClientEndpointView, SetupError>(
            SetupError::MalformedPem,
        ),
{
}

/// Every server endpoint that is set up admits no unidirectional stream,
/// in its configuration and in the form that the transport takes, and has
/// exactly one liveness mechanism, which is in force; every client endpoint
/// that is set up has a root to trust, and trusts an anchor for each root.
pub proof fn lemma_setup_gives_well_formed_config(
    server: Server,
    identity: ServerIdentityView,
    accepted: bool,
    bind_address: SocketAddress,
    items: Seq<Option<Seq<u8>>>,
)
    ensures
        server_setup(server, identity, accepted) matches Ok(endpoint) ==> {
            &&& endpoint.config.wf()
            &&& endpoint.config.role() == Role::Server
            &&& endpoint.config.transport == Some(TransportParams::server(server.liveness))
            &&& endpoint.transport.max_concurrent_uni_streams == 0
            &&& server.liveness.in_force()
        },
        client_setup(bind_address, items) matches Ok(endpoint) ==> {
            &&& endpoint.config.wf()
            &&& endpoint.config.role() == Role::Client
            &&& endpoint.trust.len() == decoded(items).len()
        },
{
}

} // verus!
