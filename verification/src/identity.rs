//! Identity material: certificates and private keys, read from PEM text.

use crate::error::SetupError;
use crate::server::Server;
use rustls::pki_types::PrivateKeyDer;
use vstd::prelude::*;

verus! {

/// How the DER bytes of a private key are laid out.
#[derive(Clone, Copy, Debug, PartialEq, Eq, Structural)]
pub enum KeyFormat {
    /// An RSA key as in PKCS #1 (`RSA PRIVATE KEY`).
    Pkcs1,
    /// An elliptic-curve key as in SEC 1 (`EC PRIVATE KEY`).
    Sec1,
    /// A key as in PKCS #8 (`PRIVATE KEY`).
    Pkcs8,
}

/// A private key: its DER bytes and their layout.
#[derive(Clone, Debug, PartialEq, Eq)]
pub struct PrivateKey {
    pub format: KeyFormat,
    pub der: Vec<u8>,
}

/// Model of [`PrivateKey`].
pub struct PrivateKeyView {
    pub format: KeyFormat,
    pub der: Seq<u8>,
}

impl View for PrivateKey {
    type V = PrivateKeyView;

    open spec fn view(&self) -> PrivateKeyView {
        PrivateKeyView { format: self.format, der: self.der@ }
    }
}

/// What a search for a private key in a PEM text came to.
#[derive(Clone, Debug, PartialEq, Eq)]
pub enum KeySearch {
    /// The first private key of the text.
    Found(PrivateKey),
    /// The text was read to its end and holds no private key.
    NotFound,
    /// A section before any private key could not be decoded.
    Malformed,
}

/// Model of [`KeySearch`].
pub enum KeySearchView {
    Found(PrivateKeyView),
    NotFound,
    Malformed,
}

impl View for KeySearch {
    type V = KeySearchView;

    open spec fn view(&self) -> KeySearchView {
        match self {
            KeySearch::Found(key) => KeySearchView::Found(key@),
            KeySearch::NotFound => KeySearchView::NotFound,
            KeySearch::Malformed => KeySearchView::Malformed,
        }
    }
}

/// The certificate sections of the PEM text `pem`, in order: for each the DER
/// bytes it decodes to, or `None` where a stretch of the text could not be
/// decoded. Sections of other kinds do not appear.
pub uninterp spec fn pem_certificates(pem: Seq<u8>) -> Seq<Option<Seq<u8>>>;

/// What a search for the first private key of the PEM text `pem` comes to.
pub uninterp spec fn pem_private_key(pem: Seq<u8>) -> KeySearchView;

/// Runs `rustls_pemfile::certs` over `pem` to its end and hands out what it
/// yields, each certificate as its DER bytes and each error as `None`.
///
/// Trusted: the items are a function of the text alone, which
/// [`pem_certificates`] names.
#[verifier::external_body]
pub(crate) fn read_pem_certificates(pem: &[u8]) -> (items: Vec<Option<Vec<u8>>>)
    ensures
        items.deep_view() == pem_certificates(pem@),
{
    let mut reader = pem;
    rustls_pemfile::certs(&mut reader).map(|item| item.ok().map(|der| der.to_vec())).collect()
}

/// Calls `rustls_pemfile::private_key` on `pem` and hands out what it
/// returns: the key with its layout, that there is none, or that the text
/// could not be decoded.
///
/// Trusted: the answer is a function of the text alone, which
/// [`pem_private_key`] names. The call returns keys of the three layouts of
/// [`KeyFormat`] only.
#[verifier::external_body]
fn read_pem_private_key(pem: &[u8]) -> (found: KeySearch)
    ensures
        found@ == pem_private_key(pem@),
{
    let mut reader = pem;
    match rustls_pemfile::private_key(&mut reader) {
        Ok(Some(PrivateKeyDer::Pkcs1(key))) => KeySearch::Found(
            PrivateKey { format: KeyFormat::Pkcs1, der: key.secret_pkcs1_der().to_vec() },
        ),
        Ok(Some(PrivateKeyDer::Sec1(key))) => KeySearch::Found(
            PrivateKey { format: KeyFormat::Sec1, der: key.secret_sec1_der().to_vec() },
        ),
        Ok(Some(PrivateKeyDer::Pkcs8(key))) => KeySearch::Found(
            PrivateKey { format: KeyFormat::Pkcs8, der: key.secret_pkcs8_der().to_vec() },
        ),
        Ok(_) => KeySearch::NotFound,
        Err(_) => KeySearch::Malformed,
    }
}

/// Of `items`, the DER bytes of those that decoded, in order.
pub open spec fn decoded(items: Seq<Option<Seq<u8>>>) -> Seq<Seq<u8>>
    decreases items.len(),
{
    if items.len() == 0 {
        Seq::empty()
    } else {
        match items.last() {
            Some(der) => decoded(items.drop_last()).push(der),
            None => decoded(items.drop_last()),
        }
    }
}

/// Whether every one of `items` decoded.
pub open spec fn all_decoded(items: Seq<Option<Seq<u8>>>) -> bool {
    forall|i: int| 0 <= i < items.len() ==> (#[trigger] items[i]) is Some
}

/// The certificate chain that a server presents, given the certificate
/// sections of its certificate text: all of them, in order. One section that
/// did not decode spoils the text; a text without certificates gives no
/// chain.
pub open spec fn chain_of(items: Seq<Option<Seq<u8>>>) -> Result<Seq<Seq<u8>>, SetupError> {
    if !all_decoded(items) {
        Err(SetupError::MalformedPem)
    } else if items.len() == 0 {
        Err(SetupError::MissingCertificate)
    } else {
        Ok(decoded(items))
    }
}

/// The private key that a server uses, given what the search of its key text
/// came to.
pub open spec fn key_of(found: KeySearchView) -> Result<PrivateKeyView, SetupError> {
    match found {
        KeySearchView::Found(key) => Ok(key),
        KeySearchView::NotFound => Err(SetupError::MissingPrivateKey),
        KeySearchView::Malformed => Err(SetupError::MalformedPem),
    }
}

/// Model of a chain, or of the error in its place.
pub open spec fn chain_view(result: Result<Vec<Vec<u8>>, SetupError>) -> Result<
    Seq<Seq<u8>>,
    SetupError,
> {
    match result {
        Ok(chain) => Ok(chain.deep_view()),
        Err(error) => Err(error),
    }
}

/// Model of a key, or of the error in its place.
pub open spec fn key_view(result: Result<PrivateKey, SetupError>) -> Result<
    PrivateKeyView,
    SetupError,
> {
    match result {
        Ok(key) => Ok(key@),
        Err(error) => Err(error),
    }
}

/// One more item extends what decoded by that item, if it decoded.
pub proof fn lemma_decoded_push(items: Seq<Option<Seq<u8>>>, item: Option<Seq<u8>>)
    ensures
        decoded(items.push(item)) == match item {
            Some(der) => decoded(items).push(der),
            None => decoded(items),
        },
{
    assert(items.push(item).drop_last() =~= items);
}

/// Where every item decoded, there are as many DER strings as items, and
/// each is that of the item in its place.
pub proof fn lemma_decoded_all(items: Seq<Option<Seq<u8>>>)
    requires
        all_decoded(items),
    ensures
        decoded(items).len() == items.len(),
        forall|i: int| 0 <= i < items.len() ==> items[i] == Some(#[trigger] decoded(items)[i]),
    decreases items.len(),
{
    if items.len() > 0 {
        lemma_decoded_all(items.drop_last());
    }
}

/// The DER strings among `items` that decoded, in order, leaving out those
/// that did not.
pub fn decoded_certificates(items: &Vec<Option<Vec<u8>>>) -> (ders: Vec<Vec<u8>>)
    ensures
        ders.deep_view() == decoded(items.deep_view()),
{
    let mut ders: Vec<Vec<u8>> = Vec::new();
    let ghost model = items.deep_view();
    assert(ders.deep_view() =~= decoded(model.take(0)));
    for i in 0..items.len()
        invariant
            model == items.deep_view(),
            ders.deep_view() == decoded(model.take(i as int)),
    {
        proof {
            lemma_decoded_push(model.take(i as int), model[i as int]);
            assert(model.take(i as int).push(model[i as int]) =~= model.take(i + 1));
        }
        let ghost before = ders.deep_view();
        match &items[i] {
            Some(der) => {
                let copy = der.clone();
                assert(copy.deep_view() =~= der.deep_view());
                ders.push(copy);
                assert(ders.deep_view() =~= before.push(der.deep_view()));
            },
            None => {},
        }
    }
    assert(model.take(items.len() as int) =~= model);
    ders
}

/// The certificate chain of a server, from the certificate sections of its
/// certificate text: see [`chain_of`].
pub fn certificate_chain(items: &Vec<Option<Vec<u8>>>) -> (result: Result<
    Vec<Vec<u8>>,
    SetupError,
>)
    ensures
        chain_view(result) == chain_of(items.deep_view()),
{
    let ghost model = items.deep_view();
    for i in 0..items.len()
        invariant
            model == items.deep_view(),
            all_decoded(model.take(i as int)),
    {
        if items[i].is_none() {
            assert(model[i as int] is None);
            return Err(SetupError::MalformedPem);
        }
        assert(model[i as int] is Some);
        assert forall|j: int| 0 <= j < i + 1 implies (#[trigger] model.take(i + 1)[j]) is Some by {
            if j < i {
                assert(model.take(i as int)[j] is Some);
            }
        }
    }
    assert(model.take(items.len() as int) =~= model);
    if items.len() == 0 {
        return Err(SetupError::MissingCertificate);
    }
    Ok(decoded_certificates(items))
}

/// The private key of a server, from what the search of its key text came
/// to: see [`key_of`].
pub fn private_key(found: KeySearch) -> (result: Result<PrivateKey, SetupError>)
    ensures
        key_view(result) == key_of(found@),
{
    match found {
        KeySearch::Found(key) => Ok(key),
        KeySearch::NotFound => Err(SetupError::MissingPrivateKey),
        KeySearch::Malformed => Err(SetupError::MalformedPem),
    }
}

/// What a server shows of itself: its certificate chain, its own certificate
/// first, and the private key that belongs to that certificate.
#[derive(Clone, Debug, PartialEq, Eq)]
pub struct ServerIdentity {
    pub chain: Vec<Vec<u8>>,
    pub key: PrivateKey,
}

/// Model of [`ServerIdentity`].
pub struct ServerIdentityView {
    pub chain: Seq<Seq<u8>>,
    pub key: PrivateKeyView,
}

impl View for ServerIdentity {
    type V = ServerIdentityView;

    open spec fn view(&self) -> ServerIdentityView {
        ServerIdentityView { chain: self.chain.deep_view(), key: self.key@ }
    }
}

impl ServerIdentityView {
    /// An identity is well formed when its chain holds a certificate.
    pub open spec fn wf(self) -> bool {
        self.chain.len() > 0
    }
}

/// The identity of a server, given the certificate sections of its
/// certificate text and what the search of its key text came to. The
/// certificates are looked at first: where they fail, the key plays no part.
pub open spec fn identity_of(items: Seq<Option<Seq<u8>>>, found: KeySearchView) -> Result<
    ServerIdentityView,
    SetupError,
> {
    match chain_of(items) {
        Err(error) => Err(error),
        Ok(chain) => match key_of(found) {
            Err(error) => Err(error),
            Ok(key) => Ok(ServerIdentityView { chain, key }),
        },
    }
}

/// Model of an identity, or of the error in its place.
pub open spec fn identity_view(result: Result<ServerIdentity, SetupError>) -> Result<
    ServerIdentityView,
    SetupError,
> {
    match result {
        Ok(identity) => Ok(identity@),
        Err(error) => Err(error),
    }
}

impl Server {
    /// Reads the certificate chain of a server from the PEM text of its
    /// certificate file.
    ///
    /// Fails with [`SetupError::MalformedPem`] if a stretch of the text does
    /// not decode, and with [`SetupError::MissingCertificate`] if the text
    /// holds no certificate.
    pub fn load_certificate_chain(cert_pem: &[u8]) -> (result: Result<Vec<Vec<u8>>, SetupError>)
        ensures
            chain_view(result) == chain_of(pem_certificates(cert_pem@)),
            result matches Ok(chain) ==> chain.len() > 0,
    {
        let items = read_pem_certificates(cert_pem);
        proof {
            if all_decoded(items.deep_view()) {
                lemma_decoded_all(items.deep_view());
            }
        }
        certificate_chain(&items)
    }

    /// Reads the private key of a server from the PEM text of its key file:
    /// the first private key that the text holds.
    ///
    /// Fails with [`SetupError::MalformedPem`] if a stretch of the text
    /// before any key does not decode, and with
    /// [`SetupError::MissingPrivateKey`] if the text holds no private key.
    pub fn load_private_key(key_pem: &[u8]) -> (result: Result<PrivateKey, SetupError>)
        ensures
            key_view(result) == key_of(pem_private_key(key_pem@)),
    {
        private_key(read_pem_private_key(key_pem))
    }

    /// Reads the identity of a server from the PEM texts of its certificate
    /// file and of its key file, the certificates first.
    pub fn load_certificates_from_pem(cert_pem: &[u8], key_pem: &[u8]) -> (result: Result<
        ServerIdentity,
        SetupError,
    >)
        ensures
            identity_view(result) == identity_of(
                pem_certificates(cert_pem@),
                pem_private_key(key_pem@),
            ),
            result matches Ok(identity) ==> identity@.wf(),
    {
        let chain = match Server::load_certificate_chain(cert_pem) {
            Ok(chain) => chain,
            Err(error) => return Err(error),
        };
        let key = match Server::load_private_key(key_pem) {
            Ok(key) => key,
            Err(error) => return Err(error),
        };
        Ok(ServerIdentity { chain, key })
    }
}

} // verus!
