//! The client TLS 1.3 tunnel of the outer and the inner method.
//!
//! A TLS connection with the restricted provider behind a byte-oriented
//! interface. Whatever gives out a secret refuses to run until the *negotiated*
//! parameters were checked against the allow-list.
use crate::bytes::copy_range;
use crate::fips_tls::error::FipsTlsError;
use crate::fips_tls::mac::AwsLcMac;
use crate::fips_tls::provider::fips_provider_arc;
use crate::fips_tls::secret::SecretBytes;
use crate::text::{joined, truth};
use rustls::pki_types::{CertificateDer, PrivateKeyDer, ServerName};
use rustls::{ClientConfig, ClientConnection, RootCertStore};
use std::io::{Read, Write};
use std::sync::Arc;
use vstd::prelude::*;
use vstd::string::StringExecFns;

verus! {

/// Cap on the TLS library's buffers, so that records fed before a drain cannot
/// grow memory without bound.
pub const TLS_BUFFER_LIMIT: usize = 65536;

/// Octets of the seed for the key schedule.
pub const SESSION_KEY_SEED_LEN: usize = 40;

/// The exporter label of the seed: `EXPORTER: teap session key seed`.
pub open spec fn seed_label() -> Seq<u8> {
    seq![
        0x45u8, 0x58u8, 0x50u8, 0x4fu8, 0x52u8, 0x54u8, 0x45u8, 0x52u8, 0x3au8, 0x20u8, 0x74u8, 0x65u8,
        0x61u8, 0x70u8, 0x20u8, 0x73u8, 0x65u8, 0x73u8, 0x73u8, 0x69u8, 0x6fu8, 0x6eu8, 0x20u8, 0x6bu8,
        0x65u8, 0x79u8, 0x20u8, 0x73u8, 0x65u8, 0x65u8, 0x64u8,
    ]
}

/// The exporter label of the seed.
pub(crate) fn seed_label_octets() -> (label: [u8; 31])
    ensures
        label@ == seed_label(),
{
    let label: [u8; 31] = [
        0x45, 0x58, 0x50, 0x4f, 0x52, 0x54, 0x45, 0x52, 0x3a, 0x20, 0x74, 0x65, 0x61, 0x70, 0x20,
        0x73, 0x65, 0x73, 0x73, 0x69, 0x6f, 0x6e, 0x20, 0x6b, 0x65, 0x79, 0x20, 0x73, 0x65, 0x65,
        0x64,
    ];
    assert(label@ =~= seed_label());
    label
}

/// `rustls::ClientConnection`, carried through as it is.
#[verifier::external_type_specification]
#[verifier::external_body]
pub struct ExClientConnection(ClientConnection);

/// `rustls::ClientConfig`, carried through as it is.
#[verifier::external_type_specification]
#[verifier::external_body]
pub struct ExClientConfig(ClientConfig);

/// `rustls::RootCertStore`, a collection of trust anchors.
#[verifier::external_type_specification]
#[verifier::external_body]
pub struct ExRootCertStore(RootCertStore);

/// `rustls::pki_types::ServerName`, carried through as it is.
#[verifier::external_type_specification]
#[verifier::external_body]
pub struct ExServerName<'a>(ServerName<'a>);

/// `std::io::Error`, carried through as it is.
#[verifier::external_type_specification]
#[verifier::external_body]
pub struct ExIoError(std::io::Error);

/// `rustls::pki_types::PrivateKeyDer`, carried through as it is.
#[verifier::external_type_specification]
#[verifier::external_body]
pub struct ExPrivateKeyDer<'a>(PrivateKeyDer<'a>);

/// A source of client certificates, behind rustls's trait for them: a key store
/// whose keys never leave it, for one.
#[verifier::external_body]
pub struct CertResolver(pub Arc<dyn rustls::client::ResolvesClientCert>);

/// What a client configuration is made of: the versions, the suites and the groups
/// it offers, its trust anchors, the certificate chain it presents (empty for none)
/// and the key of that chain, and the resolver that is asked for a certificate
/// instead.
pub type ClientTerms = (
    Seq<u16>,
    Seq<u16>,
    Seq<u16>,
    Seq<Seq<u8>>,
    Seq<Seq<u8>>,
    Option<PrivateKeyDer<'static>>,
    Option<CertResolver>,
);

/// The certificates (DER) whose trust anchors a store holds, in order.
pub uninterp spec fn store_anchors(s: RootCertStore) -> Seq<Seq<u8>>;

/// Whether rustls takes a certificate (DER) as a trust anchor.
pub uninterp spec fn is_anchor(der: Seq<u8>) -> bool;

/// What a configuration was made of.
pub uninterp spec fn config_terms(c: ClientConfig) -> ClientTerms;

/// Whether rustls, with its provider for aws-lc-rs, takes a certificate chain and a
/// key as a credential: the key can be loaded, and it does not contradict the
/// chain's first certificate.
pub uninterp spec fn is_credential(chain: Seq<Seq<u8>>, key: PrivateKeyDer<'static>) -> bool;

/// Why rustls, with its provider for aws-lc-rs, does not take a certificate chain and
/// a key as a credential.
pub uninterp spec fn credential_refusal(
    chain: Seq<Seq<u8>>,
    key: PrivateKeyDer<'static>,
) -> rustls::Error;

/// Whether rustls takes a text as a server name.
pub uninterp spec fn is_server_name(text: Seq<char>) -> bool;

/// The text that a server name was made of.
pub uninterp spec fn server_name_text(n: ServerName<'static>) -> Seq<char>;

/// What a connection was made of: the terms of its configuration and the server
/// name that the certificate is checked against.
pub uninterp spec fn connection_terms(c: ClientConnection) -> (ClientTerms, Seq<char>);

/// The limit on the buffers of what waits to be sent, in octets; nothing for none.
pub uninterp spec fn buffer_limit(c: ClientConnection) -> Option<usize>;

/// Whether the handshake is in progress.
pub uninterp spec fn handshaking(c: ClientConnection) -> bool;

/// The record octets that wait to be sent.
pub uninterp spec fn outgoing(c: ClientConnection) -> Seq<u8>;

/// All record octets that were ever queued to be sent, taken or not.
pub uninterp spec fn queued(c: ClientConnection) -> Seq<u8>;

/// The record octets that were taken in so far.
pub uninterp spec fn taken_in(c: ClientConnection) -> Seq<u8>;

/// Those of the octets taken in that were processed.
pub uninterp spec fn processed(c: ClientConnection) -> Seq<u8>;

/// The error that ended the connection, if one did.
pub uninterp spec fn fatal_error(c: ClientConnection) -> Option<rustls::Error>;

/// Whether the peer has closed its side with a notice.
pub uninterp spec fn peer_closed(c: ClientConnection) -> bool;

/// Whether the stream of records has ended without the peer's closing notice.
pub uninterp spec fn broken_off(c: ClientConnection) -> bool;

/// The decrypted octets that wait to be read.
pub uninterp spec fn received(c: ClientConnection) -> Seq<u8>;

/// All octets that were ever decrypted, read or not.
pub uninterp spec fn decrypted(c: ClientConnection) -> Seq<u8>;

/// The negotiated protocol version, suite and key-exchange group, by codepoint.
pub uninterp spec fn negotiated(c: ClientConnection) -> (Option<u16>, Option<u16>, Option<u16>);

/// The keying material that the connection exports under a label, without a
/// context; nothing where the export fails.
pub uninterp spec fn exported(c: ClientConnection, label: Seq<u8>, len: nat) -> Option<Seq<u8>>;

/// Whether the connection takes all of `plaintext` to be sent.
pub uninterp spec fn write_accepted(c: ClientConnection, plaintext: Seq<u8>) -> bool;

/// The record octets that wait to be sent once `plaintext` was written.
pub uninterp spec fn outgoing_after_write(c: ClientConnection, plaintext: Seq<u8>) -> Seq<u8>;

/// The TLS error that an I/O error carries, if it carries one.
pub uninterp spec fn carried_error(e: std::io::Error) -> Option<rustls::Error>;

/// rustls's general error with a message.
pub uninterp spec fn general_error_of(message: Seq<char>) -> rustls::Error;

/// Both connections stand at the same point of the same exchange. What waits to be
/// sent or to be read may differ.
pub open spec fn same_session(a: ClientConnection, b: ClientConnection) -> bool {
    &&& connection_terms(a) == connection_terms(b)
    &&& buffer_limit(a) == buffer_limit(b)
    &&& handshaking(a) == handshaking(b)
    &&& negotiated(a) == negotiated(b)
    &&& taken_in(a) == taken_in(b)
    &&& processed(a) == processed(b)
    &&& decrypted(a) == decrypted(b)
    &&& fatal_error(a) == fatal_error(b)
    &&& peer_closed(a) == peer_closed(b)
    &&& broken_off(a) == broken_off(b)
    &&& forall|label: Seq<u8>, len: nat|
        #[trigger] exported(b, label, len) == exported(a, label, len)
}

/// `after` is `before` with other octets, if any, that wait to be sent.
pub open spec fn unread(before: ClientConnection, after: ClientConnection) -> bool {
    same_session(before, after) && received(after) == received(before)
}

/// `after` is `before` once all that waited to be sent was taken.
pub open spec fn flushed(before: ClientConnection, after: ClientConnection) -> bool {
    &&& unread(before, after)
    &&& queued(after) == queued(before)
    &&& outgoing(after) == Seq::<u8>::empty()
}

/// `after` is `before` once `plaintext` was written and all that then waited to be
/// sent was taken, with what waited before in front.
pub open spec fn sent(before: ClientConnection, plaintext: Seq<u8>, after: ClientConnection) -> bool {
    &&& unread(before, after)
    &&& outgoing(after) == Seq::<u8>::empty()
    &&& crate::fips_tls::queue::handed_on(
        queued(before),
        outgoing(before),
        queued(after),
        outgoing(after),
        outgoing_after_write(before, plaintext),
    )
}

/// `after` is `before` with more octets, if any, that were decrypted or queued to be
/// sent: they stand behind those that wait, and nothing was taken away.
pub open spec fn grew(before: ClientConnection, after: ClientConnection) -> bool {
    &&& crate::fips_tls::queue::grown(
        decrypted(before),
        received(before),
        decrypted(after),
        received(after),
    )
    &&& crate::fips_tls::queue::grown(
        queued(before),
        outgoing(before),
        queued(after),
        outgoing(after),
    )
}

/// A connection that stands at its beginning: the first message of the handshake
/// waits to be sent, and nothing was received.
pub open spec fn is_new(c: ClientConnection) -> bool {
    &&& handshaking(c)
    &&& outgoing(c).len() > 0
    &&& queued(c) == outgoing(c)
    &&& taken_in(c) == Seq::<u8>::empty()
    &&& processed(c) == Seq::<u8>::empty()
    &&& received(c) == Seq::<u8>::empty()
    &&& decrypted(c) == Seq::<u8>::empty()
    &&& fatal_error(c) is None
    &&& !peer_closed(c)
    &&& !broken_off(c)
}

/// `after` is `before` once all that was decrypted was taken.
pub open spec fn drained(before: ClientConnection, after: ClientConnection) -> bool {
    &&& same_session(before, after)
    &&& queued(after) == queued(before)
    &&& outgoing(after) == outgoing(before)
    &&& received(after) == Seq::<u8>::empty()
}

/// `RootCertStore::empty`: no anchors.
#[verifier::external_body]
fn empty_store() -> (s: RootCertStore)
    ensures
        store_anchors(s) == Seq::<Seq<u8>>::empty(),
{
    RootCertStore::empty()
}

/// `RootCertStore::add`: appends the certificate's anchor if it has one, and
/// leaves the store unchanged otherwise.
#[verifier::external_body]
fn add_anchor(s: &mut RootCertStore, der: Vec<u8>) -> (added: bool)
    ensures
        added == is_anchor(der@),
        added ==> store_anchors(*final(s)) == store_anchors(*old(s)).push(der@),
        !added ==> *final(s) == *old(s),
{
    s.add(CertificateDer::from(der)).is_ok()
}

/// `RootCertStore::clone`: the same anchors.
#[verifier::external_body]
fn same_store(s: &RootCertStore) -> (t: RootCertStore)
    ensures
        store_anchors(t) == store_anchors(*s),
{
    s.clone()
}

/// rustls's builder for a TLS 1.3 client without a certificate: it offers what the
/// provider offers, trusts the anchors of the store, and presents nothing. It
/// succeeds if the provider is rustls's own but for the choice of our suites and
/// groups, which are usable in TLS 1.3 with each other.
#[verifier::external_body]
fn tls13_config(
    provider: Arc<rustls::crypto::CryptoProvider>,
    roots: RootCertStore,
) -> (r: Result<ClientConfig, rustls::Error>)
    ensures
        crate::fips_tls::provider::is_built_in(*provider)
            && crate::fips_tls::provider::provider_offer(*provider) == (
            crate::fips_tls::provider::offered_suites(),
            crate::fips_tls::provider::offered_groups(),
        ) ==> r is Ok,
        r matches Ok(c) ==> config_terms(c) == (
            crate::fips_tls::provider::offered_versions(),
            crate::fips_tls::provider::provider_offer(*provider).0,
            crate::fips_tls::provider::provider_offer(*provider).1,
            store_anchors(roots),
            Seq::<Seq<u8>>::empty(),
            None::<PrivateKeyDer<'static>>,
            None::<CertResolver>,
        ),
{
    let builder = ClientConfig::builder_with_provider(provider)
        .with_protocol_versions(&[&rustls::version::TLS13])?
        .with_root_certificates(roots);
    Ok(builder.with_no_client_auth())
}

/// rustls's builder for a TLS 1.3 client with a certificate chain and its key: it
/// offers what the provider offers, trusts the anchors of the store, and presents
/// the chain. With a provider that is rustls's own but for the choice of our suites
/// and groups it succeeds exactly if chain and key are a credential, and else says why
/// they are not.
#[verifier::external_body]
fn tls13_config_with_cert(
    provider: Arc<rustls::crypto::CryptoProvider>,
    roots: RootCertStore,
    chain: Vec<Vec<u8>>,
    key: PrivateKeyDer<'static>,
) -> (r: Result<ClientConfig, rustls::Error>)
    ensures
        crate::fips_tls::provider::is_built_in(*provider)
            && crate::fips_tls::provider::provider_offer(*provider) == (
            crate::fips_tls::provider::offered_suites(),
            crate::fips_tls::provider::offered_groups(),
        ) ==> match r {
            Ok(_) => is_credential(crate::bytes::octets_of(chain@), key),
            Err(e) => {
                &&& !is_credential(crate::bytes::octets_of(chain@), key)
                &&& e == credential_refusal(crate::bytes::octets_of(chain@), key)
            },
        },
        r matches Ok(c) ==> config_terms(c) == (
            crate::fips_tls::provider::offered_versions(),
            crate::fips_tls::provider::provider_offer(*provider).0,
            crate::fips_tls::provider::provider_offer(*provider).1,
            store_anchors(roots),
            crate::bytes::octets_of(chain@),
            Some(key),
            None::<CertResolver>,
        ),
{
    let builder = ClientConfig::builder_with_provider(provider)
        .with_protocol_versions(&[&rustls::version::TLS13])?
        .with_root_certificates(roots);
    let certs = chain.into_iter().map(CertificateDer::from).collect();
    builder.with_client_auth_cert(certs, key)
}

/// rustls's builder for a TLS 1.3 client whose certificate comes from a resolver: it
/// offers what the provider offers, trusts the anchors of the store, and asks the
/// resolver. The resolver is kept and not called. It succeeds if the provider is
/// rustls's own but for the choice of our suites and groups.
#[verifier::external_body]
fn tls13_config_with_resolver(
    provider: Arc<rustls::crypto::CryptoProvider>,
    roots: RootCertStore,
    resolver: CertResolver,
) -> (r: Result<ClientConfig, rustls::Error>)
    ensures
        crate::fips_tls::provider::is_built_in(*provider)
            && crate::fips_tls::provider::provider_offer(*provider) == (
            crate::fips_tls::provider::offered_suites(),
            crate::fips_tls::provider::offered_groups(),
        ) ==> r is Ok,
        r matches Ok(c) ==> config_terms(c) == (
            crate::fips_tls::provider::offered_versions(),
            crate::fips_tls::provider::provider_offer(*provider).0,
            crate::fips_tls::provider::provider_offer(*provider).1,
            store_anchors(roots),
            Seq::<Seq<u8>>::empty(),
            None::<PrivateKeyDer<'static>>,
            Some(resolver),
        ),
{
    let builder = ClientConfig::builder_with_provider(provider)
        .with_protocol_versions(&[&rustls::version::TLS13])?
        .with_root_certificates(roots);
    Ok(builder.with_client_cert_resolver(resolver.0))
}

/// `ServerName::try_from`: the name, if the text is a DNS name or an IP address.
#[verifier::external_body]
fn parse_server_name(text: &str) -> (r: Option<ServerName<'static>>)
    ensures
        r is Some <==> is_server_name(text@),
        r matches Some(n) ==> server_name_text(n) == text@,
{
    ServerName::try_from(text.to_owned()).ok()
}

/// `ClientConnection::new`: a connection on the configuration's terms at its
/// beginning. The first message of the handshake is queued, nothing was received, and
/// no end of the stream seen.
#[verifier::external_body]
fn new_connection(config: Arc<ClientConfig>, name: ServerName<'static>) -> (r: Result<
    ClientConnection,
    rustls::Error,
>)
    ensures
        r matches Ok(c) ==> {
            &&& connection_terms(c) == (config_terms(*config), server_name_text(name))
            &&& is_new(c)
        },
{
    ClientConnection::new(config, name)
}

/// `ConnectionCommon::set_buffer_limit`: bounds the buffers of what waits to be sent
/// and does nothing else.
#[verifier::external_body]
fn limit_buffers(c: &mut ClientConnection, limit: usize)
    ensures
        buffer_limit(*final(c)) == Some(limit),
        connection_terms(*final(c)) == connection_terms(*old(c)),
        handshaking(*final(c)) == handshaking(*old(c)),
        taken_in(*final(c)) == taken_in(*old(c)),
        processed(*final(c)) == processed(*old(c)),
        fatal_error(*final(c)) == fatal_error(*old(c)),
        peer_closed(*final(c)) == peer_closed(*old(c)),
        broken_off(*final(c)) == broken_off(*old(c)),
        decrypted(*final(c)) == decrypted(*old(c)),
        received(*final(c)) == received(*old(c)),
        queued(*final(c)) == queued(*old(c)),
        outgoing(*final(c)) == outgoing(*old(c)),
{
    c.set_buffer_limit(Some(limit))
}

/// `CommonState::is_handshaking`.
#[verifier::external_body]
fn in_handshake(c: &ClientConnection) -> (r: bool)
    ensures
        r == handshaking(*c),
{
    c.is_handshaking()
}

/// `ConnectionCommon::read_tls` from a byte string: how many of its octets, from
/// the front, were taken in. Of a string that is not empty, none are taken only
/// once the peer has closed, and it is not mistaken for the end of the stream. It
/// fails where a buffer is full, which is no TLS error. Nothing is processed by it.
#[verifier::external_body]
fn read_records(c: &mut ClientConnection, records: &[u8]) -> (r: Result<usize, std::io::Error>)
    ensures
        r matches Ok(n) ==> n <= records@.len() && taken_in(*final(c)) == taken_in(*old(c))
            + records@.take(n as int) && (n == 0 && records@.len() > 0 ==> peer_closed(*final(c))),
        r matches Err(e) ==> carried_error(e) is None,
        records@.len() > 0 ==> broken_off(*final(c)) == broken_off(*old(c)),
        fatal_error(*final(c)) == fatal_error(*old(c)),
        processed(*final(c)) == processed(*old(c)),
        handshaking(*final(c)) == handshaking(*old(c)),
        negotiated(*final(c)) == negotiated(*old(c)),
        peer_closed(*final(c)) == peer_closed(*old(c)),
        decrypted(*final(c)) == decrypted(*old(c)),
        received(*final(c)) == received(*old(c)),
        queued(*final(c)) == queued(*old(c)),
        outgoing(*final(c)) == outgoing(*old(c)),
        connection_terms(*final(c)) == connection_terms(*old(c)),
        buffer_limit(*final(c)) == buffer_limit(*old(c)),
{
    let mut rest = records;
    c.read_tls(&mut rest)
}

/// `ConnectionCommon::process_new_packets`: processes all that was taken in. What
/// comes of it is the peer's doing and the clock's (certificate validity), so
/// nothing is claimed of that, but for this: what it decrypts, and what it queues to
/// be sent, stands behind what waits already, and nothing is taken away. An error
/// ends the connection, and comes again from then on. It does not end the stream; a
/// closing notice may turn an end into a clean one.
#[verifier::external_body]
fn process_packets(c: &mut ClientConnection) -> (r: Result<(), rustls::Error>)
    ensures
        match r {
            Ok(_) => processed(*final(c)) == taken_in(*old(c)) && fatal_error(*final(c)) is None,
            Err(e) => fatal_error(*final(c)) == Some(e),
        },
        fatal_error(*old(c)) is Some ==> r is Err && fatal_error(*final(c)) == fatal_error(*old(c)),
        grew(*old(c), *final(c)),
        taken_in(*final(c)) == taken_in(*old(c)),
        broken_off(*final(c)) ==> broken_off(*old(c)),
        connection_terms(*final(c)) == connection_terms(*old(c)),
        buffer_limit(*final(c)) == buffer_limit(*old(c)),
{
    c.process_new_packets().map(|_| ())
}

/// `CommonState::wants_write`: whether record octets wait to be sent.
#[verifier::external_body]
fn has_outgoing(c: &ClientConnection) -> (r: bool)
    ensures
        r == (outgoing(*c).len() > 0),
{
    c.wants_write()
}

/// `ConnectionCommon::write_tls` into a vector, which takes every octet: moves
/// waiting octets from the front of the queue to the end of the vector, at least
/// one if any waits, and changes nothing else.
#[verifier::external_body]
fn write_records(c: &mut ClientConnection, out: &mut Vec<u8>) -> (r: Result<usize, std::io::Error>)
    ensures
        r matches Ok(n) && n <= outgoing(*old(c)).len() && (outgoing(*old(c)).len() > 0 ==> n > 0)
            && final(out)@ == old(out)@ + outgoing(*old(c)).take(n as int) && outgoing(*final(c))
            == outgoing(*old(c)).skip(n as int),
        queued(*final(c)) == queued(*old(c)),
        unread(*old(c), *final(c)),
{
    c.write_tls(out)
}

/// `ConnectionCommon::writer` and `write_all`: whether all of the plaintext is taken,
/// and then what waits to be sent, is decided by the connection and the plaintext.
/// What it queues stands behind what waits already; nothing else changes. The error carries the one that ended the connection, if
/// one did.
#[verifier::external_body]
fn write_plaintext(c: &mut ClientConnection, plaintext: &[u8]) -> (r: Result<(), std::io::Error>)
    ensures
        r is Ok <==> write_accepted(*old(c), plaintext@),
        r is Ok ==> outgoing(*final(c)) == outgoing_after_write(*old(c), plaintext@),
        r matches Err(e) ==> carried_error(e) == fatal_error(*old(c)),
        unread(*old(c), *final(c)),
        grew(*old(c), *final(c)),
{
    c.writer().write_all(plaintext)
}

/// `ConnectionCommon::reader` and `read` into a buffer of 4096 octets: while
/// decrypted octets wait, it takes them from the front of the queue, as many as
/// fit and at least one. While none wait there are none to take, and this is an
/// error unless the peer has closed: one of the kind `WouldBlock` unless the stream
/// has broken off, and no TLS error. Nothing else changes.
#[verifier::external_body]
fn read_plaintext(c: &mut ClientConnection) -> (r: Result<Vec<u8>, std::io::Error>)
    ensures
        match r {
            Ok(v) => {
                &&& v@.len() <= received(*old(c)).len()
                &&& v@ == received(*old(c)).take(v@.len() as int)
                &&& received(*final(c)) == received(*old(c)).skip(v@.len() as int)
                &&& v@.len() == 0 ==> received(*old(c)).len() == 0 && !broken_off(*old(c))
            },
            Err(e) => {
                &&& received(*old(c)).len() == 0
                &&& received(*final(c)).len() == 0
                &&& would_block(e) == !broken_off(*old(c))
                &&& carried_error(e) is None
            },
        },
        same_session(*old(c), *final(c)),
        queued(*final(c)) == queued(*old(c)),
        outgoing(*final(c)) == outgoing(*old(c)),
{
    let mut chunk = [0u8;4096];
    let n = c.reader().read(&mut chunk)?;
    Ok(chunk[..n].to_vec())
}

/// Whether an I/O error has the kind `WouldBlock`, by `std::io::Error::kind`.
pub uninterp spec fn would_block(e: std::io::Error) -> bool;

/// `std::io::Error::kind`, compared with `WouldBlock`: the error only says that
/// there is nothing to read for now.
#[verifier::external_body]
fn is_would_block(e: &std::io::Error) -> (r: bool)
    ensures
        r == would_block(*e),
{
    e.kind() == std::io::ErrorKind::WouldBlock
}

/// `CommonState::protocol_version`, `negotiated_cipher_suite` and
/// `negotiated_key_exchange_group`, by codepoint.
#[verifier::external_body]
fn read_negotiated(c: &ClientConnection) -> (r: (Option<u16>, Option<u16>, Option<u16>))
    ensures
        r == negotiated(*c),
{
    (
        c.protocol_version().map(u16::from),
        c.negotiated_cipher_suite().map(|s| u16::from(s.suite())),
        c.negotiated_key_exchange_group().map(|g| u16::from(g.name())),
    )
}

/// `ConnectionCommon::export_keying_material` without a context. The length is one
/// that a vector can have.
#[verifier::external_body]
fn export(c: &ClientConnection, label: &[u8], len: usize) -> (r: Result<Vec<u8>, rustls::Error>)
    requires
        len <= isize::MAX,
    ensures
        match r {
            Ok(v) => exported(*c, label@, len as nat) == Some(v@) && v@.len() == len,
            Err(_) => exported(*c, label@, len as nat) is None,
        },
{
    c.export_keying_material(vec![0u8; len], label, None)
}

/// `std::io::Error::into_inner` and a downcast: the TLS error inside an I/O error,
/// if there is one.
#[verifier::external_body]
fn inner_tls_error(e: std::io::Error) -> (r: Option<rustls::Error>)
    ensures
        r == carried_error(e),
{
    let inner = e.into_inner()?.downcast::<rustls::Error>().ok()?;
    Some(*inner)
}

/// `rustls::Error::General` with a message.
#[verifier::external_body]
pub(crate) fn general_error(message: &str) -> (e: rustls::Error)
    ensures
        e == general_error_of(message@),
{
    rustls::Error::General(message.to_owned())
}

/// The parameters are TLS 1.3, AES-256-GCM-SHA384 and ML-KEM-1024.
pub open spec fn allowed(p: (Option<u16>, Option<u16>, Option<u16>)) -> bool {
    p == (Some(0x0304u16), Some(0x1302u16), Some(0x0202u16))
}

/// `e` is the refusal of parameters that are not allowed: the version is looked
/// at first, then the suite, then the group.
pub open spec fn refusal(p: (Option<u16>, Option<u16>, Option<u16>), e: FipsTlsError) -> bool {
    if p.0 != Some(0x0304u16) {
        e matches FipsTlsError::DisallowedParameter { what } && what@ == "protocol version"@
    } else if p.1 is None {
        e == FipsTlsError::NoNegotiatedParameters
    } else if p.1 != Some(0x1302u16) {
        e matches FipsTlsError::DisallowedParameter { what } && what@ == "cipher suite"@
    } else if p.2 is None {
        e == FipsTlsError::NoNegotiatedParameters
    } else {
        e matches FipsTlsError::DisallowedParameter { what } && what@ == "key exchange group"@
    }
}

/// `usg_fips_tls::params::enforce_fips_parameters`: passes exactly the allowed
/// parameters and names the first that is not.
#[verifier::external_body]
fn check_parameters(version: Option<u16>, suite: Option<u16>, group: Option<u16>) -> (r: Result<
    (),
    FipsTlsError,
>)
    ensures
        r is Ok <==> allowed((version, suite, group)),
        r matches Err(e) ==> refusal((version, suite, group), e),
{
    usg_fips_tls::params::enforce_fips_parameters(
        version.map(rustls::ProtocolVersion::from),
        suite.map(rustls::CipherSuite::from),
        group.map(rustls::NamedGroup::from),
    ).map_err(|e| match e {
        usg_fips_tls::error::FipsError::NotFips => FipsTlsError::NotFips,
        usg_fips_tls::error::FipsError::DisallowedParameter { what } => FipsTlsError::DisallowedParameter { what },
        usg_fips_tls::error::FipsError::NoNegotiatedParameters => FipsTlsError::NoNegotiatedParameters,
    })
}

/// How the client authenticates.
pub enum ClientAuth {
    /// No client certificate (the outer tunnel; the inner method carries the
    /// identity).
    Anonymous,
    /// A software-resident certificate and key, for tests and hosts without a key
    /// store.
    SoftwareCert {
        /// The certificate chain (DER, leaf first).
        chain: Vec<Vec<u8>>,
        /// The matching private key (PKCS#8, PKCS#1 or SEC1).
        key: PrivateKeyDer<'static>,
    },
    /// A resolver, which presents a certificate of a key store and signs with a key
    /// that never leaves it: the way of production.
    Resolver(CertResolver),
}

impl ClientAuth {
    /// The client authenticates with nothing, with a resolver, or with what rustls
    /// takes as a credential.
    pub open spec fn usable(self) -> bool {
        match self {
            ClientAuth::Anonymous => true,
            ClientAuth::Resolver(_) => true,
            ClientAuth::SoftwareCert { chain, key } => is_credential(
                crate::bytes::octets_of(chain@),
                key,
            ),
        }
    }

    /// Why the credential cannot be used, where it cannot.
    pub open spec fn refusal(self) -> FipsTlsError {
        FipsTlsError::Rustls(credential_refusal(self.presents(), self.signs_with()->0))
    }

    /// The key that is used, if one is.
    pub open spec fn signs_with(self) -> Option<PrivateKeyDer<'static>> {
        match self {
            ClientAuth::SoftwareCert { key, .. } => Some(key),
            _ => None,
        }
    }

    /// The resolver that is asked for a certificate, if one is.
    pub open spec fn resolves_with(self) -> Option<CertResolver> {
        match self {
            ClientAuth::Resolver(resolver) => Some(resolver),
            _ => None,
        }
    }

    /// The chain that is presented; empty for none, and where a resolver is asked.
    pub open spec fn presents(self) -> Seq<Seq<u8>> {
        match self {
            ClientAuth::SoftwareCert { chain, .. } => crate::bytes::octets_of(chain@),
            _ => Seq::empty(),
        }
    }
}

/// The trust anchors of these certificates, or `None` if one of them has none.
pub fn trust_anchors(roots: Vec<Vec<u8>>) -> (r: Option<RootCertStore>)
    ensures
        r is Some <==> forall|i: int| 0 <= i < roots@.len() ==> is_anchor(#[trigger] roots@[i]@),
        r matches Some(s) ==> store_anchors(s) == crate::bytes::octets_of(roots@),
{
    let mut store: RootCertStore = empty_store();
    let mut i: usize = 0;
    assert(store_anchors(store) =~= crate::bytes::octets_of(roots@).take(0));
    while i < roots.len()
        invariant
            i <= roots@.len(),
            forall|j: int| 0 <= j < i ==> is_anchor(#[trigger] roots@[j]@),
            store_anchors(store) == crate::bytes::octets_of(roots@).take(i as int),
        decreases roots@.len() - i,
    {
        let der: Vec<u8> = crate::bytes::copy_of(roots[i].as_slice());
        if !add_anchor(&mut store, der) {
            assert(!is_anchor(roots@[i as int]@));
            return None;
        }
        i = i + 1;
        assert(store_anchors(store) =~= crate::bytes::octets_of(roots@).take(i as int));
    }
    assert(crate::bytes::octets_of(roots@).take(i as int)
        =~= crate::bytes::octets_of(roots@));
    Some(store)
}

/// A second store with the same trust anchors.
pub fn duplicate_anchors(roots: &RootCertStore) -> (r: RootCertStore)
    ensures
        store_anchors(r) == store_anchors(*roots),
{
    same_store(roots)
}

/// The terms of a TLS 1.3 client on the restricted provider, with these trust anchors
/// and this credential.
pub open spec fn pinned(anchors: Seq<Seq<u8>>, client_auth: ClientAuth) -> ClientTerms {
    (
        crate::fips_tls::provider::offered_versions(),
        crate::fips_tls::provider::offered_suites(),
        crate::fips_tls::provider::offered_groups(),
        anchors,
        client_auth.presents(),
        client_auth.signs_with(),
        client_auth.resolves_with(),
    )
}

/// A TLS 1.3 client configuration on the restricted provider and the given trust
/// anchors; an error if the client's credential cannot be used.
pub fn client_config(roots: RootCertStore, client_auth: ClientAuth) -> (r: Result<
    Arc<ClientConfig>,
    FipsTlsError,
>)
    ensures
        match r {
            Ok(c) => client_auth.usable() && config_terms(*c) == pinned(
                store_anchors(roots),
                client_auth,
            ),
            Err(e) => !client_auth.usable() && e == client_auth.refusal(),
        },
{
    let made: Result<ClientConfig, rustls::Error> = match client_auth {
        ClientAuth::Anonymous => tls13_config(fips_provider_arc(), roots),
        ClientAuth::SoftwareCert { chain, key } => tls13_config_with_cert(
            fips_provider_arc(),
            roots,
            chain,
            key,
        ),
        ClientAuth::Resolver(resolver) => tls13_config_with_resolver(
            fips_provider_arc(),
            roots,
            resolver,
        ),
    };
    match made {
        Ok(c) => Ok(Arc::new(c)),
        Err(e) => Err(FipsTlsError::Rustls(e)),
    }
}

/// The error of the byte interface that stands for a TLS error, and for none.
pub open spec fn byte_error(carried: Option<rustls::Error>) -> FipsTlsError {
    match carried {
        Some(tls) => FipsTlsError::Rustls(tls),
        None => FipsTlsError::Rustls(general_error_of("tls byte I/O error"@)),
    }
}

/// An I/O error of the TLS byte interface: the TLS error inside it, else a general
/// one, so that callers see one error type.
pub(crate) fn io_to_rustls(e: std::io::Error) -> (r: FipsTlsError)
    ensures
        r == byte_error(carried_error(e)),
{
    match inner_tls_error(e) {
        Some(tls) => FipsTlsError::Rustls(tls),
        None => FipsTlsError::Rustls(general_error("tls byte I/O error")),
    }
}

/// `after` is `before` with these record octets fed to it: taken in from the front,
/// all of them unless the peer has closed, and processed. What was decrypted by it,
/// and queued to be sent, stands behind what waited. The stream does not end by it.
pub open spec fn fed(before: ClientConnection, records: Seq<u8>, after: ClientConnection) -> bool {
    &&& connection_terms(after) == connection_terms(before)
    &&& buffer_limit(after) == buffer_limit(before)
    &&& broken_off(after) ==> broken_off(before)
    &&& grew(before, after)
    &&& exists|n: int|
        {
            &&& 0 <= n <= records.len()
            &&& taken_in(after) == taken_in(before) + #[trigger] records.take(n)
            &&& n < records.len() ==> peer_closed(after)
            &&& n > 0 ==> processed(after) == taken_in(after) && fatal_error(after) is None
            &&& n == 0 ==> fatal_error(after) == fatal_error(before)
        }
}

/// `e` is why records could not be fed, where the connection had ended with `before`
/// and then has ended with `after`: the very error that ended it, or the general one
/// where a full buffer refused the records. A TLS failure is never reduced to the
/// general one.
pub open spec fn feed_error(
    before: Option<rustls::Error>,
    after: Option<rustls::Error>,
    e: FipsTlsError,
) -> bool {
    &&& before is Some ==> after == before
    &&& before is None ==> e == byte_error(after)
    &&& before is Some ==> e == byte_error(before) || e == byte_error(None)
}

proof fn lemma_same_grew(before: ClientConnection, after: ClientConnection)
    requires
        decrypted(after) == decrypted(before),
        received(after) == received(before),
        queued(after) == queued(before),
        outgoing(after) == outgoing(before),
    ensures
        grew(before, after),
{
    crate::fips_tls::queue::lemma_unchanged_is_grown(decrypted(before), received(before));
    crate::fips_tls::queue::lemma_unchanged_is_grown(queued(before), outgoing(before));
}

proof fn lemma_grew_twice(a: ClientConnection, b: ClientConnection, c: ClientConnection)
    requires
        grew(a, b),
        grew(b, c),
    ensures
        grew(a, c),
{
    crate::fips_tls::queue::lemma_grown_twice(
        decrypted(a),
        received(a),
        decrypted(b),
        received(b),
        decrypted(c),
        received(c),
    );
    crate::fips_tls::queue::lemma_grown_twice(
        queued(a),
        outgoing(a),
        queued(b),
        outgoing(b),
        queued(c),
        outgoing(c),
    );
}

/// The TLS tunnel.
///
/// Whatever gives out a secret refuses to run until
/// [`TeapTlsClient::finish_handshake`] has verified the negotiated parameters: the
/// guard is structural.
pub struct TeapTlsClient {
    conn: ClientConnection,
    established: bool,
}

impl TeapTlsClient {
    /// The connection.
    pub closed spec fn connection(self) -> ClientConnection {
        self.conn
    }

    /// The negotiated parameters were verified.
    pub closed spec fn guard_passed(self) -> bool {
        self.established
    }

    /// What may be shown of the tunnel: how far it is, nothing of the live
    /// connection.
    pub open spec fn redacted_text(self) -> Seq<char> {
        "TeapTlsClient { handshaking: "@ + crate::text::truth_text(handshaking(self.connection()))
            + ", established: "@ + crate::text::truth_text(self.guard_passed()) + " }"@
    }

    /// What may be shown of the tunnel.
    pub fn redacted(&self) -> (t: String)
        ensures
            t@ == self.redacted_text(),
    {
        let mut t: String = joined(
            "TeapTlsClient { handshaking: ",
            truth(in_handshake(&self.conn)),
            ", established: ",
        );
        t.append(truth(self.established));
        t.append(" }");
        t
    }

    /// Start a handshake with `server_name`: its first message waits to be sent.
    pub fn connect(config: Arc<ClientConfig>, server_name: &str) -> (r: Result<Self, FipsTlsError>)
        ensures
            match r {
                Ok(t) => {
                    &&& is_server_name(server_name@)
                    &&& !t.guard_passed()
                    &&& is_new(t.connection())
                    &&& connection_terms(t.connection()) == (config_terms(*config), server_name@)
                    &&& buffer_limit(t.connection()) == Some(TLS_BUFFER_LIMIT)
                },
                Err(e) => {
                    &&& !is_server_name(server_name@) <==> e == FipsTlsError::BadServerName
                    &&& is_server_name(server_name@) ==> e is Rustls
                },
            },
    {
        let name: ServerName<'static> = match parse_server_name(server_name) {
            Some(n) => n,
            None => {
                return Err(FipsTlsError::BadServerName);
            },
        };
        match new_connection(config, name) {
            Ok(c) => {
                let mut conn: ClientConnection = c;
                limit_buffers(&mut conn, TLS_BUFFER_LIMIT);
                Ok(TeapTlsClient { conn, established: false })
            },
            Err(e) => Err(FipsTlsError::Rustls(e)),
        }
    }

    /// Finalize the handshake: enforce the allow-list on the negotiated
    /// parameters. Drain [`TeapTlsClient::take_outgoing`] for the final flight
    /// before.
    pub fn finish_handshake(&mut self) -> (r: Result<(), FipsTlsError>)
        ensures
            final(self).connection() == old(self).connection(),
            r is Ok <==> !handshaking(old(self).connection()) && allowed(
                negotiated(old(self).connection()),
            ),
            final(self).guard_passed() == (old(self).guard_passed() || r is Ok),
            r matches Err(e) ==> if handshaking(old(self).connection()) {
                e == FipsTlsError::HandshakeIncomplete
            } else {
                refusal(negotiated(old(self).connection()), e)
            },
    {
        if in_handshake(&self.conn) {
            return Err(FipsTlsError::HandshakeIncomplete);
        }
        match self.enforce_fips_parameters() {
            Err(e) => Err(e),
            Ok(()) => {
                self.established = true;
                Ok(())
            },
        }
    }

    /// Whether the handshake is still in progress.
    pub fn is_handshaking(&self) -> (r: bool)
        ensures
            r == handshaking(self.connection()),
    {
        in_handshake(&self.conn)
    }

    /// Feed inbound record octets into the connection. What comes of them is the
    /// peer's doing; the guard does not move, and nothing that waits is lost.
    pub fn feed_incoming(&mut self, records: &[u8]) -> (r: Result<(), FipsTlsError>)
        ensures
            final(self).guard_passed() == old(self).guard_passed(),
            connection_terms(final(self).connection()) == connection_terms(old(self).connection()),
            buffer_limit(final(self).connection()) == buffer_limit(old(self).connection()),
            broken_off(final(self).connection()) ==> broken_off(old(self).connection()),
            grew(old(self).connection(), final(self).connection()),
            records@.len() == 0 ==> r is Ok && *final(self) == *old(self),
            r is Ok ==> fed(old(self).connection(), records@, final(self).connection()),
            r matches Err(e) ==> feed_error(
                fatal_error(old(self).connection()),
                fatal_error(final(self).connection()),
                e,
            ),
    {
        // The connection is only asked to read while octets are left: an empty
        // read would be taken for the end of the stream.
        let mut at: usize = 0;
        proof {
            lemma_same_grew(self.conn, self.conn);
        }
        assert(taken_in(self.conn) =~= taken_in(old(self).conn) + records@.take(0));
        while at < records.len()
            invariant
                at <= records@.len(),
                self.established == old(self).established,
                records@.len() == 0 ==> *self == *old(self),
                connection_terms(self.conn) == connection_terms(old(self).conn),
                buffer_limit(self.conn) == buffer_limit(old(self).conn),
                broken_off(self.conn) ==> broken_off(old(self).conn),
                grew(old(self).conn, self.conn),
                at > 0 ==> fatal_error(self.conn) is None && fatal_error(old(self).conn) is None,
                at == 0 ==> fatal_error(self.conn) == fatal_error(old(self).conn),
                taken_in(self.conn) == taken_in(old(self).conn) + records@.take(at as int),
                at > 0 ==> processed(self.conn) == taken_in(self.conn),
            decreases records@.len() - at,
        {
            let rest: Vec<u8> = copy_range(records, at, records.len());
            match read_records(&mut self.conn, rest.as_slice()) {
                Err(e) => {
                    return Err(io_to_rustls(e));
                },
                Ok(n) => {
                    assert(taken_in(old(self).conn) + records@.take(at as int) + rest@.take(
                        n as int,
                    ) =~= taken_in(old(self).conn) + records@.take(at + n));
                    if n == 0 {
                        assert(fed(old(self).conn, records@, self.conn));
                        return Ok(());
                    }
                    at = at + n;
                },
            }
            let ghost read = self.conn;
            let outcome: Result<(), rustls::Error> = process_packets(&mut self.conn);
            proof {
                lemma_grew_twice(old(self).conn, read, self.conn);
            }
            match outcome {
                Err(e) => {
                    return Err(FipsTlsError::Rustls(e));
                },
                Ok(()) => {},
            }
        }
        assert(fed(old(self).conn, records@, self.conn));
        Ok(())
    }

    /// Take the record octets that wait to be sent: all of them.
    pub fn take_outgoing(&mut self) -> (r: Result<Vec<u8>, FipsTlsError>)
        ensures
            r matches Ok(v) && v@ == outgoing(old(self).connection()),
            flushed(old(self).connection(), final(self).connection()),
            final(self).guard_passed() == old(self).guard_passed(),
    {
        let mut out: Vec<u8> = Vec::new();
        let ghost all = outgoing(self.conn);
        assert(all =~= out@ + all);
        while has_outgoing(&self.conn)
            invariant
                all == outgoing(old(self).conn),
                all == out@ + outgoing(self.conn),
                self.established == old(self).established,
                unread(old(self).conn, self.conn),
                queued(self.conn) == queued(old(self).conn),
            decreases outgoing(self.conn).len(),
        {
            let ghost waiting = outgoing(self.conn);
            let ghost sent = out@;
            match write_records(&mut self.conn, &mut out) {
                Err(e) => {
                    return Err(io_to_rustls(e));
                },
                Ok(n) => {
                    assert(all =~= out@ + outgoing(self.conn)) by {
                        assert(waiting =~= waiting.take(n as int) + waiting.skip(n as int));
                    }
                },
            }
        }
        assert(outgoing(self.conn) =~= Seq::<u8>::empty());
        assert(out@ =~= all);
        Ok(out)
    }

    /// Encrypt application data into record octets. It succeeds behind the guard, if
    /// the connection takes all of the data.
    pub fn protect(&mut self, plaintext: &[u8]) -> (r: Result<Vec<u8>, FipsTlsError>)
        ensures
            final(self).guard_passed() == old(self).guard_passed(),
            !old(self).guard_passed() ==> *final(self) == *old(self),
            unread(old(self).connection(), final(self).connection()),
            r is Ok <==> old(self).guard_passed() && write_accepted(
                old(self).connection(),
                plaintext@,
            ),
            match r {
                Ok(v) => {
                    &&& v@ == outgoing_after_write(old(self).connection(), plaintext@)
                    &&& sent(old(self).connection(), plaintext@, final(self).connection())
                },
                Err(e) => if old(self).guard_passed() {
                    e == byte_error(fatal_error(old(self).connection()))
                } else {
                    e == FipsTlsError::NotEstablished
                },
            },
    {
        match self.require_established() {
            Err(e) => {
                return Err(e);
            },
            Ok(()) => {},
        }
        match write_plaintext(&mut self.conn, plaintext) {
            Err(e) => Err(io_to_rustls(e)),
            Ok(()) => {
                proof {
                    crate::fips_tls::queue::lemma_grown_then_emptied(
                        queued(old(self).conn),
                        outgoing(old(self).conn),
                        queued(self.conn),
                        outgoing(self.conn),
                    );
                }
                self.take_outgoing()
            },
        }
    }

    /// Take the decrypted octets that wait: all of them. It is an error if the stream
    /// has broken off.
    pub fn drain_received(&mut self) -> (r: Result<Vec<u8>, FipsTlsError>)
        ensures
            final(self).guard_passed() == old(self).guard_passed(),
            drained(old(self).connection(), final(self).connection()),
            r is Ok <==> !broken_off(old(self).connection()),
            r matches Ok(v) ==> v@ == received(old(self).connection()),
            r matches Err(e) ==> e == byte_error(None),
    {
        let mut plaintext: Vec<u8> = Vec::new();
        let ghost all = received(self.conn);
        assert(all =~= plaintext@ + all);
        loop
            invariant
                all == received(old(self).conn),
                all == plaintext@ + received(self.conn),
                self.established == old(self).established,
                same_session(old(self).conn, self.conn),
                queued(self.conn) == queued(old(self).conn),
                outgoing(self.conn) == outgoing(old(self).conn),
            decreases received(self.conn).len(),
        {
            let ghost waiting = received(self.conn);
            match read_plaintext(&mut self.conn) {
                Ok(chunk) => {
                    // Nothing more for now: the peer has closed cleanly.
                    if chunk.len() == 0 {
                        assert(plaintext@ =~= all);
                        assert(received(self.conn) =~= Seq::<u8>::empty());
                        return Ok(plaintext);
                    }
                    crate::bytes::put_all(&mut plaintext, chunk.as_slice());
                    assert(all =~= plaintext@ + received(self.conn)) by {
                        let n = chunk@.len() as int;
                        assert(waiting =~= waiting.take(n) + waiting.skip(n));
                    }
                },
                Err(e) => {
                    assert(plaintext@ =~= all);
                    assert(received(self.conn) =~= Seq::<u8>::empty());
                    if is_would_block(&e) {
                        return Ok(plaintext);
                    }
                    return Err(io_to_rustls(e));
                },
            }
        }
    }

    /// Decrypt inbound record octets into application data: all that waits once
    /// they were fed. Nothing decrypted is left behind or lost. Whether the records can be
    /// fed is the peer's doing; without any, it succeeds behind the guard unless the
    /// stream has broken off.
    pub fn unprotect(&mut self, records: &[u8]) -> (r: Result<Vec<u8>, FipsTlsError>)
        ensures
            final(self).guard_passed() == old(self).guard_passed(),
            !old(self).guard_passed() ==> *final(self) == *old(self),
            connection_terms(final(self).connection()) == connection_terms(old(self).connection()),
            buffer_limit(final(self).connection()) == buffer_limit(old(self).connection()),
            broken_off(final(self).connection()) ==> broken_off(old(self).connection()),
            old(self).guard_passed() && records@.len() == 0 ==> {
                &&& r is Ok <==> !broken_off(old(self).connection())
                &&& r matches Ok(v) ==> v@ == received(old(self).connection())
                &&& drained(old(self).connection(), final(self).connection())
            },
            match r {
                Ok(v) => {
                    &&& old(self).guard_passed()
                    &&& crate::fips_tls::queue::handed_on(
                        decrypted(old(self).connection()),
                        received(old(self).connection()),
                        decrypted(final(self).connection()),
                        received(final(self).connection()),
                        v@,
                    )
                    &&& exists|c: ClientConnection|
                        {
                            &&& #[trigger] fed(old(self).connection(), records@, c)
                            &&& v@ == received(c)
                            &&& drained(c, final(self).connection())
                        }
                },
                Err(e) => if !old(self).guard_passed() {
                    e == FipsTlsError::NotEstablished
                } else {
                    // The records could not be fed, or the stream has broken off.
                    ||| {
                        &&& feed_error(
                            fatal_error(old(self).connection()),
                            fatal_error(final(self).connection()),
                            e,
                        )
                        &&& grew(old(self).connection(), final(self).connection())
                    }
                    ||| broken_off(old(self).connection()) && e == byte_error(None)
                },
            },
    {
        match self.require_established() {
            Err(e) => {
                return Err(e);
            },
            Ok(()) => {},
        }
        match self.feed_incoming(records) {
            Err(e) => Err(e),
            Ok(()) => {
                assert(fed(old(self).connection(), records@, self.connection()));
                proof {
                    crate::fips_tls::queue::lemma_grown_then_emptied(
                        decrypted(old(self).conn),
                        received(old(self).conn),
                        decrypted(self.conn),
                        received(self.conn),
                    );
                }
                self.drain_received()
            },
        }
    }

    /// The 40-octet seed of the key schedule, from the connection's exporter. It is
    /// scrubbed on drop.
    pub fn session_key_seed(&self) -> (r: Result<SecretBytes, FipsTlsError>)
        ensures
            self.exports(seed_label(), SESSION_KEY_SEED_LEN as nat, r),
    {
        let label: [u8; 31] = seed_label_octets();
        self.export_keying_material(label.as_slice(), SESSION_KEY_SEED_LEN)
    }

    /// `r` is what exporting `len` octets under `label` gives: nothing before the
    /// guard, the connection's keying material behind it.
    pub open spec fn exports(self, label: Seq<u8>, len: nat, r: Result<SecretBytes, FipsTlsError>) -> bool {
        match r {
            Ok(s) => {
                &&& self.guard_passed()
                &&& exported(self.connection(), label, len) == Some(s@)
                &&& s@.len() == len
            },
            Err(e) => {
                &&& !self.guard_passed() ==> e == FipsTlsError::NotEstablished
                &&& self.guard_passed() ==> e is Rustls && exported(
                    self.connection(),
                    label,
                    len,
                ) is None
            },
        }
    }

    /// Keying material under `label`, behind the guard: as many octets as a vector can
    /// hold. It is scrubbed on drop.
    pub fn export_keying_material(&self, label: &[u8], len: usize) -> (r: Result<
        SecretBytes,
        FipsTlsError,
    >)
        requires
            self.guard_passed() ==> len <= isize::MAX,
        ensures
            self.exports(label@, len as nat, r),
    {
        match self.require_established() {
            Err(e) => {
                return Err(e);
            },
            Ok(()) => {},
        }
        match export(&self.conn, label, len) {
            Ok(v) => Ok(SecretBytes::new(v)),
            Err(e) => Err(FipsTlsError::Rustls(e)),
        }
    }

    /// The guard: `Ok` only once the parameters were verified.
    fn require_established(&self) -> (r: Result<(), FipsTlsError>)
        ensures
            r is Ok <==> self.guard_passed(),
            r matches Err(e) ==> e == FipsTlsError::NotEstablished,
    {
        if self.established {
            Ok(())
        } else {
            Err(FipsTlsError::NotEstablished)
        }
    }

    /// The codepoint of the negotiated key-exchange group.
    pub fn negotiated_group(&self) -> (g: Option<u16>)
        ensures
            g == negotiated(self.connection()).2,
    {
        read_negotiated(&self.conn).2
    }

    /// The codepoint of the negotiated suite.
    pub fn negotiated_suite(&self) -> (s: Option<u16>)
        ensures
            s == negotiated(self.connection()).1,
    {
        read_negotiated(&self.conn).1
    }

    /// The MAC that matches the negotiated suite's hash.
    pub fn negotiated_mac(&self) -> (r: Result<AwsLcMac, FipsTlsError>)
        ensures
            match r {
                Ok(m) => {
                    &&& self.guard_passed()
                    &&& negotiated(self.connection()).1 == Some(0x1302u16)
                    &&& m.hash == crate::fips_tls::mac::MacHash::Sha384
                },
                Err(e) => if !self.guard_passed() {
                    e == FipsTlsError::NotEstablished
                } else {
                    match negotiated(self.connection()).1 {
                        None => e == FipsTlsError::NoNegotiatedParameters,
                        Some(code) => code != 0x1302 && (e matches FipsTlsError::DisallowedParameter {
                            what,
                        } && what@ == "cipher suite"@),
                    }
                },
            },
    {
        match self.require_established() {
            Err(e) => {
                return Err(e);
            },
            Ok(()) => {},
        }
        match self.negotiated_suite() {
            None => Err(FipsTlsError::NoNegotiatedParameters),
            Some(code) => if code == 0x1302 {
                Ok(AwsLcMac::sha384())
            } else {
                Err(FipsTlsError::DisallowedParameter { what: "cipher suite" })
            },
        }
    }

    /// Enforce the allow-list on the negotiated parameters.
    pub fn enforce_fips_parameters(&self) -> (r: Result<(), FipsTlsError>)
        ensures
            r is Ok <==> allowed(negotiated(self.connection())),
            r matches Err(e) ==> refusal(negotiated(self.connection()), e),
    {
        let p: (Option<u16>, Option<u16>, Option<u16>) = read_negotiated(&self.conn);
        check_parameters(p.0, p.1, p.2)
    }
}

/// What one call does to a tunnel as far as the guard goes: `finished` is whether it
/// was a [`TeapTlsClient::finish_handshake`] that succeeded.
pub open spec fn guard_call(before: TeapTlsClient, after: TeapTlsClient, finished: bool) -> bool {
    after.guard_passed() == (before.guard_passed() || finished)
}

/// The guard of a new tunnel is passed exactly if the handshake was finished with
/// success by then, whatever else was called.
pub proof fn law_guard_opens_by_finishing_alone(
    tunnels: Seq<TeapTlsClient>,
    finished: Seq<bool>,
    j: int,
)
    requires
        tunnels.len() == finished.len() + 1,
        !tunnels[0].guard_passed(),
        forall|k: int|
            0 <= k < finished.len() ==> guard_call(
                #[trigger] tunnels[k],
                tunnels[k + 1],
                #[trigger] finished[k],
            ),
        0 <= j < tunnels.len(),
    ensures
        tunnels[j].guard_passed() <==> exists|i: int| 0 <= i < j && #[trigger] finished[i],
    decreases j,
{
    if j > 0 {
        law_guard_opens_by_finishing_alone(tunnels, finished, j - 1);
        assert(guard_call(tunnels[j - 1], tunnels[j], finished[j - 1]));
    }
}

/// Nothing is exported before the guard, whatever is asked for and even if the
/// handshake is complete; behind it the seed has its length.
pub proof fn law_exports_stand_behind_the_guard(
    t: TeapTlsClient,
    label: Seq<u8>,
    len: nat,
    r: Result<SecretBytes, FipsTlsError>,
)
    requires
        t.exports(label, len, r),
    ensures
        !t.guard_passed() ==> r == Err::<SecretBytes, FipsTlsError>(FipsTlsError::NotEstablished),
        t.guard_passed() && exported(t.connection(), label, len) is Some ==> (r matches Ok(s)
            && Some(s@) == exported(t.connection(), label, len) && s@.len() == len),
{
}

/// The exporter label of the seed is the text `EXPORTER: teap session key seed`, and the
/// seed has 40 octets.
pub proof fn law_seed_label_is_its_text()
    ensures
        seed_label().len() == "EXPORTER: teap session key seed"@.len(),
        forall|i: int|
            0 <= i < seed_label().len() ==> #[trigger] seed_label()[i] as char
                == "EXPORTER: teap session key seed"@[i],
        SESSION_KEY_SEED_LEN == 40,
{
    reveal_strlit("EXPORTER: teap session key seed");
}

/// The trust anchors are the certificates that were given, in order, and there are none if
/// one of them cannot be an anchor. A second store has the same.
pub proof fn law_anchors_are_the_given_roots(
    roots: Vec<Vec<u8>>,
    r: Option<RootCertStore>,
    store: RootCertStore,
    twin: RootCertStore,
    i: int,
)
    requires
        call_ensures(trust_anchors, (roots,), r),
        call_ensures(duplicate_anchors, (&store,), twin),
        0 <= i < roots@.len(),
    ensures
        !is_anchor(roots@[i]@) ==> r is None,
        r matches Some(s) ==> store_anchors(s).len() == roots@.len() && store_anchors(s)[i]
            == roots@[i]@,
        r is None ==> exists|j: int| 0 <= j < roots@.len() && !is_anchor(#[trigger] roots@[j]@),
        store_anchors(twin) == store_anchors(store),
{
    if let Some(s) = r {
        assert(store_anchors(s)[i] == crate::bytes::octets_of(roots@)[i]);
    }
}

/// No certificates make an empty store.
pub proof fn law_no_roots_are_no_anchors(roots: Vec<Vec<u8>>, r: Option<RootCertStore>)
    requires
        call_ensures(trust_anchors, (roots,), r),
        roots@.len() == 0,
    ensures
        r matches Some(s) && store_anchors(s).len() == 0,
{
}

/// A client configuration offers TLS 1.3 alone, the approved suites and ML-KEM-1024, trusts
/// exactly the given anchors, and presents the credential that it was made with: none, a
/// chain with its key, or a resolver. Only a chain that does not fit its key is refused.
pub proof fn law_configuration_has_its_credential(
    roots: RootCertStore,
    client_auth: ClientAuth,
    r: Result<Arc<ClientConfig>, FipsTlsError>,
)
    requires
        call_ensures(client_config, (roots, client_auth), r),
    ensures
        r is Ok <==> (client_auth matches ClientAuth::SoftwareCert { chain, key } ==> is_credential(
            crate::bytes::octets_of(chain@),
            key,
        )),
        r matches Ok(c) ==> {
            let terms = config_terms(*c);
            &&& terms.0 == seq![0x0304u16]
            &&& terms.1 == seq![0x1302u16, 0x1301u16]
            &&& terms.2 == seq![0x0202u16]
            &&& terms.3 == store_anchors(roots)
            &&& client_auth is Anonymous ==> terms.4.len() == 0 && terms.5 is None && terms.6 is None
            &&& client_auth matches ClientAuth::SoftwareCert { chain, key } ==> terms.4.len()
                == chain@.len() && (forall|i: int|
                0 <= i < chain@.len() ==> #[trigger] terms.4[i] == chain@[i]@) && terms.5 == Some(key)
                && terms.6 is None
            &&& client_auth matches ClientAuth::Resolver(resolver) ==> terms.4.len() == 0
                && terms.5 is None && terms.6 == Some(resolver)
        },
        r matches Err(e) ==> e is Rustls,
{
}

/// A tunnel starts only with a name that is one, with the guard closed, on the terms of its
/// configuration, and with capped buffers; a name that is none is refused as such.
pub proof fn law_tunnel_starts_closed(
    config: Arc<ClientConfig>,
    server_name: &str,
    r: Result<TeapTlsClient, FipsTlsError>,
)
    requires
        call_ensures(TeapTlsClient::connect, (config, server_name), r),
    ensures
        !is_server_name(server_name@) <==> (r matches Err(e) && e is BadServerName),
        r matches Ok(t) ==> {
            &&& !t.guard_passed()
            &&& handshaking(t.connection())
            &&& outgoing(t.connection()).len() > 0
            &&& received(t.connection()).len() == 0
            &&& connection_terms(t.connection()).0 == config_terms(*config)
            &&& connection_terms(t.connection()).1 == server_name@
            &&& buffer_limit(t.connection()) == Some(65536usize)
        },
{
}

/// The handshake is finished exactly if it is complete and TLS 1.3, AES-256-GCM-SHA384 and
/// ML-KEM-1024 were negotiated. That, and nothing else, opens the guard, which never closes
/// again; the connection is not touched.
pub proof fn law_guard_opens_on_approved_parameters(t: &mut TeapTlsClient, r: Result<(), FipsTlsError>)
    requires
        call_ensures(TeapTlsClient::finish_handshake, (t,), r),
    ensures
        ({
            let conn = old(t).connection();
            &&& r is Ok <==> !handshaking(conn) && negotiated(conn) == (
                Some(0x0304u16),
                Some(0x1302u16),
                Some(0x0202u16),
            )
            &&& r is Ok ==> final(t).guard_passed()
            &&& r is Err ==> final(t).guard_passed() == old(t).guard_passed()
            &&& handshaking(conn) ==> (r matches Err(e) && e is HandshakeIncomplete)
            &&& old(t).guard_passed() ==> final(t).guard_passed()
            &&& final(t).connection() == conn
        }),
{
}

/// What is refused of the parameters is told apart: the version first, then the suite, then
/// the group, and what was not negotiated at all.
pub proof fn law_first_refused_parameter_is_named(t: TeapTlsClient, r: Result<(), FipsTlsError>)
    requires
        call_ensures(TeapTlsClient::enforce_fips_parameters, (&t,), r),
    ensures
        ({
            let p = negotiated(t.connection());
            &&& r is Ok <==> p.0 == Some(0x0304u16) && p.1 == Some(0x1302u16) && p.2 == Some(0x0202u16)
            &&& p.0 != Some(0x0304u16) ==> (r matches Err(FipsTlsError::DisallowedParameter { what })
                && what@ == "protocol version"@)
            &&& p.0 == Some(0x0304u16) && (p.1 is None || p.1 == Some(0x1302u16) && p.2 is None)
                ==> (r matches Err(e) && e is NoNegotiatedParameters)
            &&& p.0 == Some(0x0304u16) && p.1 is Some && p.1 != Some(0x1302u16) ==> (r matches Err(
                FipsTlsError::DisallowedParameter { what },
            ) && what@ == "cipher suite"@)
            &&& p.0 == Some(0x0304u16) && p.1 == Some(0x1302u16) && p.2 is Some && p.2 != Some(
                0x0202u16,
            ) ==> (r matches Err(FipsTlsError::DisallowedParameter { what }) && what@
                == "key exchange group"@)
        }),
{
}

/// Nothing secret comes out before the guard, and nothing moves by asking: not the seed, not
/// other keying material, no encryption, no decryption, no MAC.
pub proof fn law_nothing_passes_the_closed_guard(
    t: TeapTlsClient,
    seed: Result<SecretBytes, FipsTlsError>,
    label: &[u8],
    len: usize,
    key: Result<SecretBytes, FipsTlsError>,
    mac: Result<AwsLcMac, FipsTlsError>,
    p: &mut TeapTlsClient,
    plaintext: &[u8],
    sealed: Result<Vec<u8>, FipsTlsError>,
    u: &mut TeapTlsClient,
    records: &[u8],
    opened: Result<Vec<u8>, FipsTlsError>,
)
    requires
        call_ensures(TeapTlsClient::session_key_seed, (&t,), seed),
        call_ensures(TeapTlsClient::export_keying_material, (&t, label, len), key),
        call_ensures(TeapTlsClient::negotiated_mac, (&t,), mac),
        call_ensures(TeapTlsClient::protect, (p, plaintext), sealed),
        call_ensures(TeapTlsClient::unprotect, (u, records), opened),
        !t.guard_passed(),
        !old(p).guard_passed(),
        !old(u).guard_passed(),
    ensures
        seed matches Err(e) && e is NotEstablished,
        key matches Err(e) && e is NotEstablished,
        mac matches Err(e) && e is NotEstablished,
        sealed matches Err(e) && e is NotEstablished,
        opened matches Err(e) && e is NotEstablished,
        *final(p) == *old(p),
        *final(u) == *old(u),
{
}

/// Behind the guard the seed is 40 octets of keying material under its label, other
/// material is what the connection exports under the label asked for, in the length asked
/// for, and the MAC is HMAC-SHA-384 for AES-256-GCM-SHA384.
pub proof fn law_secrets_are_the_connections(
    t: TeapTlsClient,
    seed: Result<SecretBytes, FipsTlsError>,
    label: &[u8],
    len: usize,
    key: Result<SecretBytes, FipsTlsError>,
    mac: Result<AwsLcMac, FipsTlsError>,
)
    requires
        call_ensures(TeapTlsClient::session_key_seed, (&t,), seed),
        call_ensures(TeapTlsClient::export_keying_material, (&t, label, len), key),
        call_ensures(TeapTlsClient::negotiated_mac, (&t,), mac),
        t.guard_passed(),
    ensures
        seed is Ok <==> exported(t.connection(), seed_label(), 40) is Some,
        seed matches Ok(s) ==> exported(t.connection(), seed_label(), 40) == Some(s@) && s@.len()
            == 40,
        key is Ok <==> exported(t.connection(), label@, len as nat) is Some,
        key matches Ok(s) ==> exported(t.connection(), label@, len as nat) == Some(s@) && s@.len()
            == len,
        mac is Ok <==> negotiated(t.connection()).1 == Some(0x1302u16),
        mac matches Ok(m) ==> m.hash == crate::fips_tls::mac::MacHash::Sha384,
{
}

/// All that waits to be sent comes out at once, and a second time nothing; what was
/// received, and the guard, stay.
pub proof fn law_outgoing_is_taken_once(
    t: &mut TeapTlsClient,
    r: Result<Vec<u8>, FipsTlsError>,
    u: &mut TeapTlsClient,
    q: Result<Vec<u8>, FipsTlsError>,
)
    requires
        call_ensures(TeapTlsClient::take_outgoing, (t,), r),
        *old(u) == *final(t),
        call_ensures(TeapTlsClient::take_outgoing, (u,), q),
    ensures
        r matches Ok(v) && v@ == outgoing(old(t).connection()),
        q matches Ok(v) && v@.len() == 0,
        received(final(t).connection()) == received(old(t).connection()),
        final(t).guard_passed() == old(t).guard_passed(),
        handshaking(final(t).connection()) == handshaking(old(t).connection()),
        negotiated(final(t).connection()) == negotiated(old(t).connection()),
{
}

/// All that was decrypted comes out at once, and a second time nothing, as long as the
/// stream has not broken off; what waits to be sent, and the guard, stay.
pub proof fn law_received_is_drained_once(
    t: &mut TeapTlsClient,
    r: Result<Vec<u8>, FipsTlsError>,
    u: &mut TeapTlsClient,
    q: Result<Vec<u8>, FipsTlsError>,
)
    requires
        call_ensures(TeapTlsClient::drain_received, (t,), r),
        *old(u) == *final(t),
        call_ensures(TeapTlsClient::drain_received, (u,), q),
    ensures
        r is Ok <==> !broken_off(old(t).connection()),
        r matches Ok(v) ==> v@ == received(old(t).connection()),
        r is Ok ==> (q matches Ok(v) && v@.len() == 0),
        outgoing(final(t).connection()) == outgoing(old(t).connection()),
        final(t).guard_passed() == old(t).guard_passed(),
{
}

/// Nothing fed is nothing done. Feeding records never takes away what waits: what was
/// decrypted before stays in front, and so does what waits to be sent; the guard, the terms
/// and the cap stay.
pub proof fn law_feeding_loses_nothing(
    t: &mut TeapTlsClient,
    records: &[u8],
    r: Result<(), FipsTlsError>,
)
    requires
        call_ensures(TeapTlsClient::feed_incoming, (t, records), r),
    ensures
        records@.len() == 0 ==> r is Ok && *final(t) == *old(t),
        ({
            let before = old(t).connection();
            let after = final(t).connection();
            &&& received(before).len() <= received(after).len()
            &&& received(after).take(received(before).len() as int) == received(before)
            &&& outgoing(before).len() <= outgoing(after).len()
            &&& outgoing(after).take(outgoing(before).len() as int) == outgoing(before)
            &&& connection_terms(after) == connection_terms(before)
            &&& buffer_limit(after) == buffer_limit(before)
        }),
        final(t).guard_passed() == old(t).guard_passed(),
{
    let before = old(t).connection();
    let after = final(t).connection();
    assert(received(after).take(received(before).len() as int) =~= received(before));
    assert(outgoing(after).take(outgoing(before).len() as int) =~= outgoing(before));
}

/// Records that are fed are taken in from the front, behind all that came before, and all
/// of them unless the peer has closed.
pub proof fn law_records_are_taken_in_order(t: &mut TeapTlsClient, records: &[u8])
    requires
        call_ensures(TeapTlsClient::feed_incoming, (t, records), Ok::<(), FipsTlsError>(())),
    ensures
        ({
            let before = taken_in(old(t).connection());
            let after = taken_in(final(t).connection());
            &&& before.len() <= after.len() <= before.len() + records@.len()
            &&& after.take(before.len() as int) == before
            &&& after.skip(before.len() as int) == records@.take(after.len() - before.len())
            &&& !peer_closed(final(t).connection()) ==> after == before + records@
        }),
{
    let before = taken_in(old(t).connection());
    let after = taken_in(final(t).connection());
    assert(fed(old(t).connection(), records@, final(t).connection()));
    let n = choose|n: int|
        {
            &&& 0 <= n <= records@.len()
            &&& after == before + #[trigger] records@.take(n)
            &&& n < records@.len() ==> peer_closed(final(t).connection())
        };
    assert(after.take(before.len() as int) =~= before);
    assert(after.skip(before.len() as int) =~= records@.take(n));
    if n == records@.len() {
        assert(records@.take(n) =~= records@);
    }
}

/// Behind the guard data is encrypted exactly if the connection takes it, and comes out
/// behind all that waited; nothing waits then.
pub proof fn law_encrypted_data_comes_out(
    t: &mut TeapTlsClient,
    plaintext: &[u8],
    r: Result<Vec<u8>, FipsTlsError>,
)
    requires
        old(t).guard_passed(),
        call_ensures(TeapTlsClient::protect, (t, plaintext), r),
    ensures
        r is Ok <==> write_accepted(old(t).connection(), plaintext@),
        r matches Ok(v) ==> v@ == outgoing_after_write(old(t).connection(), plaintext@) && v@.len()
            >= outgoing(old(t).connection()).len() && v@.take(
            outgoing(old(t).connection()).len() as int,
        ) == outgoing(old(t).connection()) && outgoing(final(t).connection()).len() == 0,
        received(final(t).connection()) == received(old(t).connection()),
        final(t).guard_passed(),
{
    if let Ok(v) = r {
        let waiting = outgoing(old(t).connection());
        assert(v@ + outgoing(final(t).connection()) =~= v@);
        assert(v@.take(waiting.len() as int) =~= waiting);
    }
}

/// Behind the guard all that is decrypted comes out, behind what waited, and nothing waits
/// then. Without records, what waited comes out unless the stream has broken off.
pub proof fn law_decrypted_data_comes_out(
    t: &mut TeapTlsClient,
    records: &[u8],
    r: Result<Vec<u8>, FipsTlsError>,
)
    requires
        old(t).guard_passed(),
        call_ensures(TeapTlsClient::unprotect, (t, records), r),
    ensures
        r matches Ok(v) ==> v@.len() >= received(old(t).connection()).len() && v@.take(
            received(old(t).connection()).len() as int,
        ) == received(old(t).connection()) && received(final(t).connection()).len() == 0,
        records@.len() == 0 && !broken_off(old(t).connection()) ==> (r matches Ok(v) && v@
            == received(old(t).connection())),
        final(t).guard_passed(),
{
    if let Ok(v) = r {
        let waiting = received(old(t).connection());
        assert(v@ + received(final(t).connection()) =~= v@);
        assert(v@.take(waiting.len() as int) =~= waiting);
    }
}

/// What is read of a tunnel is the connection's: whether it is in its handshake, the suite
/// and the group.
pub proof fn law_tunnel_tells_what_was_negotiated(
    t: TeapTlsClient,
    going_on: bool,
    suite: Option<u16>,
    group: Option<u16>,
)
    requires
        call_ensures(TeapTlsClient::is_handshaking, (&t,), going_on),
        call_ensures(TeapTlsClient::negotiated_suite, (&t,), suite),
        call_ensures(TeapTlsClient::negotiated_group, (&t,), group),
    ensures
        going_on == handshaking(t.connection()),
        negotiated(t.connection()).1 == suite,
        negotiated(t.connection()).2 == group,
{
}

/// A TLS error inside an error of the byte interface comes out as it is; only where there
/// is none, a general one stands for it.
pub proof fn law_tls_errors_come_through(e: rustls::Error)
    ensures
        byte_error(Some(e)) == FipsTlsError::Rustls(e),
        byte_error(None) == FipsTlsError::Rustls(general_error_of("tls byte I/O error"@)),
{
}

/// What is shown of a tunnel is a matter of its handshake and its guard alone, and tells
/// an open guard from a closed one.
pub proof fn law_shown_tunnel_tells_its_guard(
    t: TeapTlsClient,
    u: TeapTlsClient,
    a: String,
    b: String,
)
    requires
        call_ensures(TeapTlsClient::redacted, (&t,), a),
        call_ensures(TeapTlsClient::redacted, (&u,), b),
        handshaking(t.connection()) == handshaking(u.connection()),
    ensures
        a@ == b@ <==> t.guard_passed() == u.guard_passed(),
{
    reveal_strlit("true");
    reveal_strlit("false");
    let around = "TeapTlsClient { handshaking: "@.len() + crate::text::truth_text(
        handshaking(t.connection()),
    ).len() + ", established: "@.len() + " }"@.len();
    assert(a@.len() == around + crate::text::truth_text(t.guard_passed()).len());
    assert(b@.len() == around + crate::text::truth_text(u.guard_passed()).len());
}

} // verus!
