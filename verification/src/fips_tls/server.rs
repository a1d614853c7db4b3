//! The server end of a TLS 1.3 tunnel, for end-to-end tests: the restricted provider
//! behind the same byte-oriented interface as the client's.
use crate::bytes::copy_range;
use crate::fips_tls::backend::io_to_rustls;
use crate::fips_tls::error::FipsTlsError;
use crate::fips_tls::provider::fips_provider_arc;
use crate::fips_tls::secret::SecretBytes;
use rustls::pki_types::{CertificateDer, PrivateKeyDer};
use rustls::{RootCertStore, ServerConfig, ServerConnection};
use std::io::{Read, Write};
use std::sync::Arc;
use vstd::prelude::*;

verus! {

/// `rustls::ServerConnection`, carried through as it is.
#[verifier::external_type_specification]
#[verifier::external_body]
pub struct ExServerConnection(ServerConnection);

/// `rustls::ServerConfig`, carried through as it is.
#[verifier::external_type_specification]
#[verifier::external_body]
pub struct ExServerConfig(ServerConfig);

/// What a server configuration is made of: the versions, the suites and the groups it
/// takes, the certificate chain it presents and its key, and the anchors that a
/// client certificate must chain to, if one is required.
pub type ServerTerms = (
    Seq<u16>,
    Seq<u16>,
    Seq<u16>,
    Seq<Seq<u8>>,
    PrivateKeyDer<'static>,
    Option<Seq<Seq<u8>>>,
);

/// What a configuration was made of.
pub uninterp spec fn server_config_terms(c: ServerConfig) -> ServerTerms;

/// Whether a configuration is as rustls's builder made it, with nothing set
/// afterwards.
pub uninterp spec fn is_as_built(c: ServerConfig) -> bool;

/// What the configuration of a connection was made of.
pub uninterp spec fn server_terms(c: ServerConnection) -> ServerTerms;

/// Whether the handshake is in progress.
pub uninterp spec fn server_handshaking(c: ServerConnection) -> bool;

/// The record octets that wait to be sent.
pub uninterp spec fn server_outgoing(c: ServerConnection) -> Seq<u8>;

/// All record octets that were ever queued to be sent, taken or not.
pub uninterp spec fn server_queued(c: ServerConnection) -> Seq<u8>;

/// The record octets that were taken in so far.
pub uninterp spec fn server_taken_in(c: ServerConnection) -> Seq<u8>;

/// Those of the octets taken in that were processed.
pub uninterp spec fn server_processed(c: ServerConnection) -> Seq<u8>;

/// The error that ended the connection, if one did.
pub uninterp spec fn server_fatal_error(c: ServerConnection) -> Option<rustls::Error>;

/// Whether the client has closed its side with a notice.
pub uninterp spec fn client_closed(c: ServerConnection) -> bool;

/// The decrypted octets that wait to be read.
pub uninterp spec fn server_received(c: ServerConnection) -> Seq<u8>;

/// All octets that were ever decrypted, read or not.
pub uninterp spec fn server_decrypted(c: ServerConnection) -> Seq<u8>;

/// The keying material that the connection exports under a label, without a
/// context; nothing where the export fails.
pub uninterp spec fn server_exported(c: ServerConnection, label: Seq<u8>, len: nat) -> Option<
    Seq<u8>,
>;

/// Whether the connection takes all of `plaintext` to be sent.
pub uninterp spec fn server_write_accepted(c: ServerConnection, plaintext: Seq<u8>) -> bool;

/// The record octets that wait to be sent once `plaintext` was written.
pub uninterp spec fn server_outgoing_after_write(c: ServerConnection, plaintext: Seq<u8>) -> Seq<
    u8,
>;

/// A key in PKCS#8 form.
pub uninterp spec fn pkcs8_key_of(octets: Seq<u8>) -> PrivateKeyDer<'static>;

/// Both connections stand at the same point of the same exchange. What waits to be
/// sent or to be read may differ.
pub open spec fn same_server_session(a: ServerConnection, b: ServerConnection) -> bool {
    &&& server_terms(a) == server_terms(b)
    &&& server_handshaking(a) == server_handshaking(b)
    &&& server_taken_in(a) == server_taken_in(b)
    &&& server_processed(a) == server_processed(b)
    &&& server_decrypted(a) == server_decrypted(b)
    &&& server_fatal_error(a) == server_fatal_error(b)
    &&& client_closed(a) == client_closed(b)
    &&& forall|label: Seq<u8>, len: nat|
        #[trigger] server_exported(b, label, len) == server_exported(a, label, len)
}

/// `after` is `before` with other octets, if any, that wait to be sent.
pub open spec fn server_unread(before: ServerConnection, after: ServerConnection) -> bool {
    same_server_session(before, after) && server_received(after) == server_received(before)
}

/// `after` is `before` once all that waited to be sent was taken.
pub open spec fn server_flushed(before: ServerConnection, after: ServerConnection) -> bool {
    &&& server_unread(before, after)
    &&& server_queued(after) == server_queued(before)
    &&& server_outgoing(after) == Seq::<u8>::empty()
}

/// `after` is `before` once `plaintext` was written and all that then waited to be
/// sent was taken, with what waited before in front.
pub open spec fn server_sent(
    before: ServerConnection,
    plaintext: Seq<u8>,
    after: ServerConnection,
) -> bool {
    &&& server_unread(before, after)
    &&& server_outgoing(after) == Seq::<u8>::empty()
    &&& crate::fips_tls::queue::handed_on(
        server_queued(before),
        server_outgoing(before),
        server_queued(after),
        server_outgoing(after),
        server_outgoing_after_write(before, plaintext),
    )
}

/// `after` is `before` with more octets, if any, that were decrypted or queued to be
/// sent: they stand behind those that wait, and nothing was taken away.
pub open spec fn server_grew(before: ServerConnection, after: ServerConnection) -> bool {
    &&& crate::fips_tls::queue::grown(
        server_decrypted(before),
        server_received(before),
        server_decrypted(after),
        server_received(after),
    )
    &&& crate::fips_tls::queue::grown(
        server_queued(before),
        server_outgoing(before),
        server_queued(after),
        server_outgoing(after),
    )
}

/// A connection that stands at its beginning, with nothing received or to be sent.
pub open spec fn server_is_new(c: ServerConnection) -> bool {
    &&& server_handshaking(c)
    &&& server_outgoing(c) == Seq::<u8>::empty()
    &&& server_queued(c) == Seq::<u8>::empty()
    &&& server_taken_in(c) == Seq::<u8>::empty()
    &&& server_processed(c) == Seq::<u8>::empty()
    &&& server_received(c) == Seq::<u8>::empty()
    &&& server_decrypted(c) == Seq::<u8>::empty()
    &&& server_fatal_error(c) is None
    &&& !client_closed(c)
}

/// `after` is `before` once all that was decrypted was taken.
pub open spec fn server_drained(before: ServerConnection, after: ServerConnection) -> bool {
    &&& same_server_session(before, after)
    &&& server_queued(after) == server_queued(before)
    &&& server_outgoing(after) == server_outgoing(before)
    &&& server_received(after) == Seq::<u8>::empty()
}

/// `PrivateKeyDer::Pkcs8`.
#[verifier::external_body]
pub(crate) fn pkcs8_key(octets: Vec<u8>) -> (k: PrivateKeyDer<'static>)
    ensures
        k == pkcs8_key_of(octets@),
{
    PrivateKeyDer::Pkcs8(octets.into())
}

/// rustls's builder for a TLS 1.3 server without client authentication: it takes what
/// the provider offers and presents the chain. With a provider that is rustls's own
/// but for the choice of our suites and groups it succeeds exactly if chain and key
/// are a credential, which it finds as the client's builder does.
#[verifier::external_body]
fn tls13_server_config(
    provider: Arc<rustls::crypto::CryptoProvider>,
    chain: Vec<Vec<u8>>,
    key: PrivateKeyDer<'static>,
) -> (r: Result<ServerConfig, rustls::Error>)
    ensures
        crate::fips_tls::provider::is_built_in(*provider)
            && crate::fips_tls::provider::provider_offer(*provider) == (
            crate::fips_tls::provider::offered_suites(),
            crate::fips_tls::provider::offered_groups(),
        ) ==> match r {
            Ok(_) => crate::fips_tls::backend::is_credential(crate::bytes::octets_of(chain@), key),
            Err(e) => {
                &&& !crate::fips_tls::backend::is_credential(crate::bytes::octets_of(chain@), key)
                &&& e == crate::fips_tls::backend::credential_refusal(
                    crate::bytes::octets_of(chain@),
                    key,
                )
            },
        },
        r matches Ok(c) ==> is_as_built(c) && server_config_terms(c) == (
            crate::fips_tls::provider::offered_versions(),
            crate::fips_tls::provider::provider_offer(*provider).0,
            crate::fips_tls::provider::provider_offer(*provider).1,
            crate::bytes::octets_of(chain@),
            key,
            None::<Seq<Seq<u8>>>,
        ),
{
    let builder = ServerConfig::builder_with_provider(provider)
        .with_protocol_versions(&[&rustls::version::TLS13])?
        .with_no_client_auth();
    let certs = chain.into_iter().map(CertificateDer::from).collect();
    builder.with_single_cert(certs, key)
}

/// rustls's builder for a TLS 1.3 server that requires a client certificate chaining
/// to one of the anchors, by `WebPkiClientVerifier`: it takes what the provider
/// offers and presents the chain. With anchors, and with a provider that is rustls's
/// own but for the choice of our suites and groups, it succeeds exactly if chain and
/// key are a credential. Without anchors it fails.
#[verifier::external_body]
fn tls13_server_config_for_clients(
    provider: Arc<rustls::crypto::CryptoProvider>,
    clients: RootCertStore,
    chain: Vec<Vec<u8>>,
    key: PrivateKeyDer<'static>,
) -> (r: Result<ServerConfig, rustls::Error>)
    ensures
        crate::fips_tls::backend::store_anchors(clients).len() == 0 ==> r is Err,
        crate::fips_tls::backend::store_anchors(clients).len() > 0
            && crate::fips_tls::provider::is_built_in(*provider)
            && crate::fips_tls::provider::provider_offer(*provider) == (
            crate::fips_tls::provider::offered_suites(),
            crate::fips_tls::provider::offered_groups(),
        ) ==> match r {
            Ok(_) => crate::fips_tls::backend::is_credential(crate::bytes::octets_of(chain@), key),
            Err(e) => {
                &&& !crate::fips_tls::backend::is_credential(crate::bytes::octets_of(chain@), key)
                &&& e == crate::fips_tls::backend::credential_refusal(
                    crate::bytes::octets_of(chain@),
                    key,
                )
            },
        },
        r matches Ok(c) ==> is_as_built(c) && server_config_terms(c) == (
            crate::fips_tls::provider::offered_versions(),
            crate::fips_tls::provider::provider_offer(*provider).0,
            crate::fips_tls::provider::provider_offer(*provider).1,
            crate::bytes::octets_of(chain@),
            key,
            Some(crate::fips_tls::backend::store_anchors(clients)),
        ),
{
    let verifier = rustls::server::WebPkiClientVerifier::builder_with_provider(
        Arc::new(clients),
        provider.clone(),
    ).build().map_err(|e| rustls::Error::General(e.to_string()))?;
    let builder = ServerConfig::builder_with_provider(provider)
        .with_protocol_versions(&[&rustls::version::TLS13])?
        .with_client_cert_verifier(verifier);
    let certs = chain.into_iter().map(CertificateDer::from).collect();
    builder.with_single_cert(certs, key)
}

/// `ServerConnection::new`: a connection on the configuration's terms that has not
/// completed its handshake and has neither received nor to send anything. It
/// succeeds for a configuration as the builder made it.
#[verifier::external_body]
fn new_server_connection(config: ServerConfig) -> (r: Result<ServerConnection, rustls::Error>)
    ensures
        is_as_built(config) ==> r is Ok,
        r matches Ok(c) ==> {
            &&& server_terms(c) == server_config_terms(config)
            &&& server_is_new(c)
        },
{
    ServerConnection::new(Arc::new(config))
}

/// `CommonState::is_handshaking` of a server.
#[verifier::external_body]
fn server_in_handshake(c: &ServerConnection) -> (r: bool)
    ensures
        r == server_handshaking(*c),
{
    c.is_handshaking()
}

/// `ConnectionCommon::read_tls` of a server, from a byte string: how many of its
/// octets, from the front, were taken in. Of a string that is not empty, none are
/// taken only once the client has closed. It fails where a buffer is full, which is
/// no TLS error.
#[verifier::external_body]
fn server_read_records(c: &mut ServerConnection, records: &[u8]) -> (r: Result<
    usize,
    std::io::Error,
>)
    ensures
        r matches Ok(n) ==> n <= records@.len() && server_taken_in(*final(c)) == server_taken_in(
            *old(c),
        ) + records@.take(n as int) && (n == 0 && records@.len() > 0 ==> client_closed(*final(c))),
        r matches Err(e) ==> crate::fips_tls::backend::carried_error(e) is None,
        server_processed(*final(c)) == server_processed(*old(c)),
        server_handshaking(*final(c)) == server_handshaking(*old(c)),
        client_closed(*final(c)) == client_closed(*old(c)),
        server_decrypted(*final(c)) == server_decrypted(*old(c)),
        server_received(*final(c)) == server_received(*old(c)),
        server_queued(*final(c)) == server_queued(*old(c)),
        server_outgoing(*final(c)) == server_outgoing(*old(c)),
        server_fatal_error(*final(c)) == server_fatal_error(*old(c)),
        server_terms(*final(c)) == server_terms(*old(c)),
{
    let mut rest = records;
    c.read_tls(&mut rest)
}

/// `ConnectionCommon::process_new_packets` of a server: processes all that was taken
/// in. What comes of it is the client's doing and the clock's, so nothing is claimed
/// of that, but for this: what it decrypts, and what it queues to be sent, stands
/// behind what waits already, and nothing is taken away. An error ends the
/// connection, and comes again from then on.
#[verifier::external_body]
fn server_process_packets(c: &mut ServerConnection) -> (r: Result<(), rustls::Error>)
    ensures
        match r {
            Ok(_) => server_processed(*final(c)) == server_taken_in(*old(c)) && server_fatal_error(
                *final(c),
            ) is None,
            Err(e) => server_fatal_error(*final(c)) == Some(e),
        },
        server_fatal_error(*old(c)) is Some ==> r is Err && server_fatal_error(*final(c))
            == server_fatal_error(*old(c)),
        server_grew(*old(c), *final(c)),
        server_taken_in(*final(c)) == server_taken_in(*old(c)),
        server_terms(*final(c)) == server_terms(*old(c)),
{
    c.process_new_packets().map(|_| ())
}

/// `CommonState::wants_write` of a server: whether record octets wait to be sent.
#[verifier::external_body]
fn server_has_outgoing(c: &ServerConnection) -> (r: bool)
    ensures
        r == (server_outgoing(*c).len() > 0),
{
    c.wants_write()
}

/// `ConnectionCommon::write_tls` of a server into a vector, which takes every octet:
/// moves waiting octets from the front of the queue to the end of the vector, at
/// least one if any waits, and changes nothing else.
#[verifier::external_body]
fn server_write_records(c: &mut ServerConnection, out: &mut Vec<u8>) -> (r: Result<
    usize,
    std::io::Error,
>)
    ensures
        r matches Ok(n) && n <= server_outgoing(*old(c)).len() && (server_outgoing(*old(c)).len() > 0
            ==> n > 0) && final(out)@ == old(out)@ + server_outgoing(*old(c)).take(n as int)
            && server_outgoing(*final(c)) == server_outgoing(*old(c)).skip(n as int),
        server_queued(*final(c)) == server_queued(*old(c)),
        server_unread(*old(c), *final(c)),
{
    c.write_tls(out)
}

/// `ConnectionCommon::writer` of a server, and `write_all`: whether all of the
/// plaintext is taken, and then what waits to be sent, is decided by the connection
/// and the plaintext. What it queues stands behind what waits already; nothing else
/// changes. The error carries the one that ended the connection, if one did.
#[verifier::external_body]
fn server_write_plaintext(c: &mut ServerConnection, plaintext: &[u8]) -> (r: Result<
    (),
    std::io::Error,
>)
    ensures
        r is Ok <==> server_write_accepted(*old(c), plaintext@),
        r is Ok ==> server_outgoing(*final(c)) == server_outgoing_after_write(*old(c), plaintext@),
        r matches Err(e) ==> crate::fips_tls::backend::carried_error(e) == server_fatal_error(
            *old(c),
        ),
        server_unread(*old(c), *final(c)),
        server_grew(*old(c), *final(c)),
{
    c.writer().write_all(plaintext)
}

/// `ConnectionCommon::reader` of a server, and `read` into a buffer of 4096 octets:
/// while decrypted octets wait, it takes them from the front of the queue, as many as
/// fit and at least one. While none wait there are none to take, and this is an error
/// unless the client has closed. Nothing else changes.
#[verifier::external_body]
fn server_read_plaintext(c: &mut ServerConnection) -> (r: Result<Vec<u8>, std::io::Error>)
    ensures
        match r {
            Ok(v) => {
                &&& v@.len() <= server_received(*old(c)).len()
                &&& v@ == server_received(*old(c)).take(v@.len() as int)
                &&& server_received(*final(c)) == server_received(*old(c)).skip(v@.len() as int)
                &&& v@.len() == 0 ==> server_received(*old(c)).len() == 0
            },
            Err(_) => server_received(*old(c)).len() == 0 && server_received(*final(c)).len() == 0,
        },
        same_server_session(*old(c), *final(c)),
        server_queued(*final(c)) == server_queued(*old(c)),
        server_outgoing(*final(c)) == server_outgoing(*old(c)),
{
    let mut chunk = [0u8;4096];
    let n = c.reader().read(&mut chunk)?;
    Ok(chunk[..n].to_vec())
}

/// `ConnectionCommon::export_keying_material` of a server, without a context. The
/// length is one that a vector can have.
#[verifier::external_body]
fn server_export(c: &ServerConnection, label: &[u8], len: usize) -> (r: Result<
    Vec<u8>,
    rustls::Error,
>)
    requires
        len <= isize::MAX,
    ensures
        match r {
            Ok(v) => server_exported(*c, label@, len as nat) == Some(v@) && v@.len() == len,
            Err(_) => server_exported(*c, label@, len as nat) is None,
        },
{
    c.export_keying_material(vec![0u8; len], label, None)
}

/// `after` is `before` with these record octets fed to it: taken in from the front,
/// all of them unless the client has closed, and processed. What was decrypted by it,
/// and queued to be sent, stands behind what waited.
pub open spec fn server_fed(
    before: ServerConnection,
    records: Seq<u8>,
    after: ServerConnection,
) -> bool {
    &&& server_terms(after) == server_terms(before)
    &&& server_grew(before, after)
    &&& exists|n: int|
        {
            &&& 0 <= n <= records.len()
            &&& server_taken_in(after) == server_taken_in(before) + #[trigger] records.take(n)
            &&& n < records.len() ==> client_closed(after)
            &&& n > 0 ==> server_processed(after) == server_taken_in(after) && server_fatal_error(
                after,
            ) is None
            &&& n == 0 ==> server_fatal_error(after) == server_fatal_error(before)
        }
}

proof fn lemma_server_same_grew(before: ServerConnection, after: ServerConnection)
    requires
        server_decrypted(after) == server_decrypted(before),
        server_received(after) == server_received(before),
        server_queued(after) == server_queued(before),
        server_outgoing(after) == server_outgoing(before),
    ensures
        server_grew(before, after),
{
    crate::fips_tls::queue::lemma_unchanged_is_grown(
        server_decrypted(before),
        server_received(before),
    );
    crate::fips_tls::queue::lemma_unchanged_is_grown(
        server_queued(before),
        server_outgoing(before),
    );
}

proof fn lemma_server_grew_twice(a: ServerConnection, b: ServerConnection, c: ServerConnection)
    requires
        server_grew(a, b),
        server_grew(b, c),
    ensures
        server_grew(a, c),
{
    crate::fips_tls::queue::lemma_grown_twice(
        server_decrypted(a),
        server_received(a),
        server_decrypted(b),
        server_received(b),
        server_decrypted(c),
        server_received(c),
    );
    crate::fips_tls::queue::lemma_grown_twice(
        server_queued(a),
        server_outgoing(a),
        server_queued(b),
        server_outgoing(b),
        server_queued(c),
        server_outgoing(c),
    );
}

/// The server end of a tunnel.
pub struct TlsServer {
    conn: ServerConnection,
}

impl TlsServer {
    /// The connection.
    pub closed spec fn connection(self) -> ServerConnection {
        self.conn
    }

    /// A fresh connection on these terms.
    pub open spec fn is_fresh(self, terms: ServerTerms) -> bool {
        server_terms(self.connection()) == terms && server_is_new(self.connection())
    }

    /// A server on the restricted provider that presents `chain` and, with `clients`,
    /// requires a client certificate chaining to one of these anchors. It fails if
    /// chain and key are no credential, or if there are no anchors to chain to.
    pub fn accept(clients: Option<RootCertStore>, chain: Vec<Vec<u8>>, key: PrivateKeyDer<'static>) -> (r:
        Result<Self, FipsTlsError>)
        ensures
            r is Ok <==> crate::fips_tls::backend::is_credential(
                crate::bytes::octets_of(chain@),
                key,
            ) && (clients matches Some(s) ==> crate::fips_tls::backend::store_anchors(s).len() > 0),
            match r {
                Ok(t) => t.is_fresh(
                    (
                        crate::fips_tls::provider::offered_versions(),
                        crate::fips_tls::provider::offered_suites(),
                        crate::fips_tls::provider::offered_groups(),
                        crate::bytes::octets_of(chain@),
                        key,
                        match clients {
                            Some(s) => Some(crate::fips_tls::backend::store_anchors(s)),
                            None => None,
                        },
                    ),
                ),
                Err(e) => {
                    &&& e is Rustls
                    &&& (clients matches Some(s) ==> crate::fips_tls::backend::store_anchors(s).len()
                        > 0) ==> e == FipsTlsError::Rustls(
                        crate::fips_tls::backend::credential_refusal(
                            crate::bytes::octets_of(chain@),
                            key,
                        ),
                    )
                },
            },
    {
        let made: Result<ServerConfig, rustls::Error> = match clients {
            None => tls13_server_config(fips_provider_arc(), chain, key),
            Some(s) => tls13_server_config_for_clients(fips_provider_arc(), s, chain, key),
        };
        let config: ServerConfig = match made {
            Ok(c) => c,
            Err(e) => {
                return Err(FipsTlsError::Rustls(e));
            },
        };
        match new_server_connection(config) {
            Ok(conn) => Ok(TlsServer { conn }),
            Err(e) => Err(FipsTlsError::Rustls(e)),
        }
    }

    /// Whether the handshake is still in progress.
    pub fn is_handshaking(&self) -> (r: bool)
        ensures
            r == server_handshaking(self.connection()),
    {
        server_in_handshake(&self.conn)
    }

    /// Feed inbound record octets into the connection. What comes of them is the
    /// client's doing.
    pub fn feed_incoming(&mut self, records: &[u8]) -> (r: Result<(), FipsTlsError>)
        ensures
            server_terms(final(self).connection()) == server_terms(old(self).connection()),
            server_grew(old(self).connection(), final(self).connection()),
            records@.len() == 0 ==> r is Ok && *final(self) == *old(self),
            r is Ok ==> server_fed(old(self).connection(), records@, final(self).connection()),
            r matches Err(e) ==> crate::fips_tls::backend::feed_error(
                server_fatal_error(old(self).connection()),
                server_fatal_error(final(self).connection()),
                e,
            ),
    {
        let mut at: usize = 0;
        proof {
            lemma_server_same_grew(self.conn, self.conn);
        }
        assert(server_taken_in(self.conn) =~= server_taken_in(old(self).conn) + records@.take(0));
        while at < records.len()
            invariant
                at <= records@.len(),
                records@.len() == 0 ==> *self == *old(self),
                server_terms(self.conn) == server_terms(old(self).conn),
                server_grew(old(self).conn, self.conn),
                server_taken_in(self.conn) == server_taken_in(old(self).conn) + records@.take(
                    at as int,
                ),
                at > 0 ==> server_processed(self.conn) == server_taken_in(self.conn),
                at > 0 ==> server_fatal_error(self.conn) is None && server_fatal_error(
                    old(self).conn,
                ) is None,
                at == 0 ==> server_fatal_error(self.conn) == server_fatal_error(old(self).conn),
            decreases records@.len() - at,
        {
            let rest: Vec<u8> = copy_range(records, at, records.len());
            match server_read_records(&mut self.conn, rest.as_slice()) {
                Err(e) => {
                    return Err(io_to_rustls(e));
                },
                Ok(n) => {
                    assert(server_taken_in(old(self).conn) + records@.take(at as int) + rest@.take(
                        n as int,
                    ) =~= server_taken_in(old(self).conn) + records@.take(at + n));
                    if n == 0 {
                        assert(server_fed(old(self).conn, records@, self.conn));
                        return Ok(());
                    }
                    at = at + n;
                },
            }
            let ghost read = self.conn;
            let outcome: Result<(), rustls::Error> = server_process_packets(&mut self.conn);
            proof {
                lemma_server_grew_twice(old(self).conn, read, self.conn);
            }
            match outcome {
                Err(e) => {
                    return Err(FipsTlsError::Rustls(e));
                },
                Ok(()) => {},
            }
        }
        assert(server_fed(old(self).conn, records@, self.conn));
        Ok(())
    }

    /// Take the record octets that wait to be sent: all of them.
    pub fn take_outgoing(&mut self) -> (r: Vec<u8>)
        ensures
            r@ == server_outgoing(old(self).connection()),
            server_flushed(old(self).connection(), final(self).connection()),
    {
        let mut out: Vec<u8> = Vec::new();
        let ghost all = server_outgoing(self.conn);
        assert(all =~= out@ + all);
        while server_has_outgoing(&self.conn)
            invariant
                all == server_outgoing(old(self).conn),
                all == out@ + server_outgoing(self.conn),
                server_unread(old(self).conn, self.conn),
                server_queued(self.conn) == server_queued(old(self).conn),
            decreases server_outgoing(self.conn).len(),
        {
            let ghost waiting = server_outgoing(self.conn);
            if let Ok(n) = server_write_records(&mut self.conn, &mut out) {
                assert(all =~= out@ + server_outgoing(self.conn)) by {
                    assert(waiting =~= waiting.take(n as int) + waiting.skip(n as int));
                }
            }
        }
        assert(server_outgoing(self.conn) =~= Seq::<u8>::empty());
        assert(out@ =~= all);
        out
    }

    /// Encrypt application data into record octets, behind those that wait. It
    /// succeeds if the connection takes all of the data.
    pub fn protect(&mut self, plaintext: &[u8]) -> (r: Result<Vec<u8>, FipsTlsError>)
        ensures
            server_unread(old(self).connection(), final(self).connection()),
            r is Ok <==> server_write_accepted(old(self).connection(), plaintext@),
            match r {
                Ok(v) => {
                    &&& v@ == server_outgoing_after_write(old(self).connection(), plaintext@)
                    &&& server_sent(old(self).connection(), plaintext@, final(self).connection())
                },
                Err(e) => e == crate::fips_tls::backend::byte_error(
                    server_fatal_error(old(self).connection()),
                ),
            },
    {
        match server_write_plaintext(&mut self.conn, plaintext) {
            Err(e) => Err(io_to_rustls(e)),
            Ok(()) => {
                proof {
                    crate::fips_tls::queue::lemma_grown_then_emptied(
                        server_queued(old(self).conn),
                        server_outgoing(old(self).conn),
                        server_queued(self.conn),
                        server_outgoing(self.conn),
                    );
                }
                Ok(self.take_outgoing())
            },
        }
    }

    /// Take the decrypted octets that wait: all of them.
    pub fn drain_received(&mut self) -> (r: Vec<u8>)
        ensures
            r@ == server_received(old(self).connection()),
            server_drained(old(self).connection(), final(self).connection()),
    {
        let mut plaintext: Vec<u8> = Vec::new();
        let ghost all = server_received(self.conn);
        assert(all =~= plaintext@ + all);
        loop
            invariant
                all == server_received(old(self).conn),
                all == plaintext@ + server_received(self.conn),
                same_server_session(old(self).conn, self.conn),
                server_queued(self.conn) == server_queued(old(self).conn),
                server_outgoing(self.conn) == server_outgoing(old(self).conn),
            decreases server_received(self.conn).len(),
        {
            let ghost waiting = server_received(self.conn);
            let chunk: Vec<u8> = match server_read_plaintext(&mut self.conn) {
                Ok(v) => v,
                // Nothing waits, for now or for good.
                Err(_) => Vec::new(),
            };
            if chunk.len() == 0 {
                assert(server_received(self.conn) =~= Seq::<u8>::empty());
                assert(plaintext@ =~= all);
                return plaintext;
            }
            crate::bytes::put_all(&mut plaintext, chunk.as_slice());
            assert(all =~= plaintext@ + server_received(self.conn)) by {
                let n = chunk@.len() as int;
                assert(waiting =~= waiting.take(n) + waiting.skip(n));
            }
        }
    }

    /// Keying material under `label`: as many octets as a vector can hold. It is
    /// scrubbed on drop.
    pub fn export_keying_material(&self, label: &[u8], len: usize) -> (r: Result<
        SecretBytes,
        FipsTlsError,
    >)
        requires
            len <= isize::MAX,
        ensures
            match r {
                Ok(s) => server_exported(self.connection(), label@, len as nat) == Some(s@)
                    && s@.len() == len,
                Err(e) => server_exported(self.connection(), label@, len as nat) is None
                    && e is Rustls,
            },
    {
        match server_export(&self.conn, label, len) {
            Ok(v) => Ok(SecretBytes::new(v)),
            Err(e) => Err(FipsTlsError::Rustls(e)),
        }
    }
}

/// A server end offers TLS 1.3 alone, the approved suites and ML-KEM-1024, presents the
/// given chain and key, and asks for a client certificate exactly if it was given anchors
/// for one. It is refused if chain and key do not fit, or if the anchors are none.
pub proof fn law_server_end_is_made_as_asked(
    clients: Option<RootCertStore>,
    chain: Vec<Vec<u8>>,
    key: PrivateKeyDer<'static>,
    r: Result<TlsServer, FipsTlsError>,
)
    requires
        call_ensures(TlsServer::accept, (clients, chain, key), r),
    ensures
        r is Ok <==> crate::fips_tls::backend::is_credential(crate::bytes::octets_of(chain@), key) && (
        clients matches Some(s) ==> crate::fips_tls::backend::store_anchors(s).len() > 0),
        r matches Ok(t) ==> {
            let terms = server_terms(t.connection());
            &&& terms.0 == seq![0x0304u16]
            &&& terms.1 == seq![0x1302u16, 0x1301u16]
            &&& terms.2 == seq![0x0202u16]
            &&& terms.3.len() == chain@.len()
            &&& forall|i: int| 0 <= i < chain@.len() ==> #[trigger] terms.3[i] == chain@[i]@
            &&& terms.4 == key
            &&& clients is None ==> terms.5 is None
            &&& clients matches Some(s) ==> terms.5 == Some(
                crate::fips_tls::backend::store_anchors(s),
            )
            &&& server_handshaking(t.connection())
            &&& server_outgoing(t.connection()).len() == 0
            &&& server_received(t.connection()).len() == 0
        },
        r matches Err(e) ==> e is Rustls,
{
}

/// All that waits to be sent comes out at once, and a second time nothing; all that was
/// decrypted likewise. Neither touches the other.
pub proof fn law_server_queues_are_emptied_once(
    t: &mut TlsServer,
    out: Vec<u8>,
    u: &mut TlsServer,
    again: Vec<u8>,
    d: &mut TlsServer,
    read: Vec<u8>,
    e: &mut TlsServer,
    more: Vec<u8>,
)
    requires
        call_ensures(TlsServer::take_outgoing, (t,), out),
        *old(u) == *final(t),
        call_ensures(TlsServer::take_outgoing, (u,), again),
        call_ensures(TlsServer::drain_received, (d,), read),
        *old(e) == *final(d),
        call_ensures(TlsServer::drain_received, (e,), more),
    ensures
        out@ == server_outgoing(old(t).connection()),
        again@.len() == 0,
        server_received(final(t).connection()) == server_received(old(t).connection()),
        read@ == server_received(old(d).connection()),
        more@.len() == 0,
        server_outgoing(final(d).connection()) == server_outgoing(old(d).connection()),
{
}

/// Nothing fed is nothing done. Feeding records never takes away what waits: what was
/// decrypted before stays in front, and so does what waits to be sent.
pub proof fn law_server_feeding_loses_nothing(
    t: &mut TlsServer,
    records: &[u8],
    r: Result<(), FipsTlsError>,
)
    requires
        call_ensures(TlsServer::feed_incoming, (t, records), r),
    ensures
        records@.len() == 0 ==> r is Ok && *final(t) == *old(t),
        ({
            let before = old(t).connection();
            let after = final(t).connection();
            &&& server_received(before).len() <= server_received(after).len()
            &&& server_received(after).take(server_received(before).len() as int)
                == server_received(before)
            &&& server_outgoing(before).len() <= server_outgoing(after).len()
            &&& server_outgoing(after).take(server_outgoing(before).len() as int)
                == server_outgoing(before)
            &&& server_terms(after) == server_terms(before)
        }),
{
    let before = old(t).connection();
    let after = final(t).connection();
    assert(server_received(after).take(server_received(before).len() as int)
        =~= server_received(before));
    assert(server_outgoing(after).take(server_outgoing(before).len() as int)
        =~= server_outgoing(before));
}

/// Data is encrypted exactly if the connection takes it, and comes out behind all that
/// waited; nothing waits then. Keying material is what the connection exports, in the
/// length asked for.
pub proof fn law_server_data_comes_out(
    t: &mut TlsServer,
    plaintext: &[u8],
    r: Result<Vec<u8>, FipsTlsError>,
    s: TlsServer,
    label: &[u8],
    len: usize,
    key: Result<SecretBytes, FipsTlsError>,
    going_on: bool,
)
    requires
        call_ensures(TlsServer::protect, (t, plaintext), r),
        call_ensures(TlsServer::export_keying_material, (&s, label, len), key),
        call_ensures(TlsServer::is_handshaking, (&s,), going_on),
    ensures
        r is Ok <==> server_write_accepted(old(t).connection(), plaintext@),
        r matches Ok(v) ==> v@ == server_outgoing_after_write(old(t).connection(), plaintext@)
            && v@.len() >= server_outgoing(old(t).connection()).len() && v@.take(
            server_outgoing(old(t).connection()).len() as int,
        ) == server_outgoing(old(t).connection()) && server_outgoing(final(t).connection()).len()
            == 0,
        key is Ok <==> server_exported(s.connection(), label@, len as nat) is Some,
        key matches Ok(k) ==> server_exported(s.connection(), label@, len as nat) == Some(k@)
            && k@.len() == len,
        going_on == server_handshaking(s.connection()),
{
    if let Ok(v) = r {
        let waiting = server_outgoing(old(t).connection());
        assert(v@ + server_outgoing(final(t).connection()) =~= v@);
        assert(v@.take(waiting.len() as int) =~= waiting);
    }
}

} // verus!
