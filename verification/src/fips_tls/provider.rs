//! The restricted crypto provider: TLS 1.3 AES-GCM suites and post-quantum key
//! exchange only.
use crate::fips_tls::error::FipsTlsError;
use std::sync::Arc;
use vstd::prelude::*;

verus! {

/// `rustls::SupportedCipherSuite`, carried through as it is.
#[verifier::external_type_specification]
#[verifier::external_body]
pub struct ExSupportedCipherSuite(rustls::SupportedCipherSuite);

/// `rustls::crypto::CryptoProvider`, carried through as it is.
#[verifier::external_type_specification]
#[verifier::external_body]
pub struct ExCryptoProvider(rustls::crypto::CryptoProvider);

/// The codepoint of a suite.
pub uninterp spec fn suite_code(s: rustls::SupportedCipherSuite) -> u16;

/// Whether a suite is one of rustls's own TLS 1.3 suites for aws-lc-rs.
pub uninterp spec fn is_built_in_suite(s: rustls::SupportedCipherSuite) -> bool;

/// Whether a provider is rustls's default one for aws-lc-rs (which decides, among
/// other things, what keys it can load), but for a choice among rustls's own TLS
/// 1.3 suites and key-exchange groups.
pub uninterp spec fn is_built_in(p: rustls::crypto::CryptoProvider) -> bool;

/// The codepoints of the suites and of the key-exchange groups that a provider
/// offers, in order of preference.
pub uninterp spec fn provider_offer(p: rustls::crypto::CryptoProvider) -> (Seq<u16>, Seq<u16>);

/// Whether every algorithm of a provider comes from a validated module, as
/// `CryptoProvider::fips` finds it.
pub uninterp spec fn provider_validated(p: rustls::crypto::CryptoProvider) -> bool;

/// The codepoints of the suites, in order.
pub open spec fn suite_codes(suites: Seq<rustls::SupportedCipherSuite>) -> Seq<u16> {
    Seq::new(suites.len(), |i: int| suite_code(suites[i]))
}

/// The protocol versions we offer: TLS 1.3 alone.
pub open spec fn offered_versions() -> Seq<u16> {
    seq![0x0304u16]
}

/// The suites we offer: AES-256-GCM-SHA384, then AES-128-GCM-SHA256.
pub open spec fn offered_suites() -> Seq<u16> {
    seq![0x1302u16, 0x1301u16]
}

/// The groups we offer: ML-KEM-1024 alone. The handshake is post-quantum or it
/// fails.
pub open spec fn offered_groups() -> Seq<u16> {
    seq![0x0202u16]
}

/// rustls's `TLS13_AES_256_GCM_SHA384`, one of rustls's own, whose codepoint is 0x1302.
#[verifier::external_body]
fn aes_256_gcm_sha384() -> (s: rustls::SupportedCipherSuite)
    ensures
        suite_code(s) == 0x1302,
        is_built_in_suite(s),
{
    rustls::crypto::aws_lc_rs::cipher_suite::TLS13_AES_256_GCM_SHA384
}

/// rustls's `TLS13_AES_128_GCM_SHA256`, one of rustls's own, whose codepoint is 0x1301.
#[verifier::external_body]
fn aes_128_gcm_sha256() -> (s: rustls::SupportedCipherSuite)
    ensures
        suite_code(s) == 0x1301,
        is_built_in_suite(s),
{
    rustls::crypto::aws_lc_rs::cipher_suite::TLS13_AES_128_GCM_SHA256
}

/// rustls's `aws_lc_rs::default_provider` with its suites replaced by `suites` and
/// its groups by `MLKEM1024`, whose codepoint is 0x0202; all else is the default
/// provider's.
#[verifier::external_body]
fn mlkem1024_provider(suites: Vec<rustls::SupportedCipherSuite>) -> (p: rustls::crypto::CryptoProvider)
    ensures
        provider_offer(p) == (suite_codes(suites@), seq![0x0202u16]),
        (forall|i: int| 0 <= i < suites@.len() ==> is_built_in_suite(#[trigger] suites@[i]))
            ==> is_built_in(p),
{
    rustls::crypto::CryptoProvider {
        cipher_suites: suites,
        kx_groups: vec![rustls::crypto::aws_lc_rs::kx_group::MLKEM1024],
        ..rustls::crypto::aws_lc_rs::default_provider()
    }
}

/// `CryptoProvider::fips`: whether every algorithm of the provider is validated.
#[verifier::external_body]
fn is_validated(p: &rustls::crypto::CryptoProvider) -> (r: bool)
    ensures
        r == provider_validated(*p),
{
    p.fips()
}

/// The approved TLS 1.3 suites, in order of preference.
pub fn fips_cipher_suites() -> (v: Vec<rustls::SupportedCipherSuite>)
    ensures
        suite_codes(v@) == offered_suites(),
        forall|i: int| 0 <= i < v@.len() ==> is_built_in_suite(#[trigger] v@[i]),
{
    let mut v: Vec<rustls::SupportedCipherSuite> = Vec::new();
    v.push(aes_256_gcm_sha384());
    v.push(aes_128_gcm_sha256());
    assert(suite_codes(v@) =~= offered_suites());
    v
}

/// The codepoints of the approved key-exchange groups, in order of preference.
pub fn fips_kx_groups() -> (v: Vec<u16>)
    ensures
        v@ == offered_groups(),
{
    let mut v: Vec<u16> = Vec::new();
    v.push(0x0202);
    assert(v@ =~= offered_groups());
    v
}

/// The restricted provider.
pub fn fips_provider() -> (p: rustls::crypto::CryptoProvider)
    ensures
        provider_offer(p) == (offered_suites(), offered_groups()),
        is_built_in(p),
{
    mlkem1024_provider(fips_cipher_suites())
}

/// The restricted provider behind an `Arc`.
pub fn fips_provider_arc() -> (p: Arc<rustls::crypto::CryptoProvider>)
    ensures
        provider_offer(*p) == (offered_suites(), offered_groups()),
        is_built_in(*p),
{
    Arc::new(fips_provider())
}

/// Fail-closed guard: `Ok` only for a provider from a validated module. The host's
/// own policy is a separate guard.
pub fn assert_fips(provider: &rustls::crypto::CryptoProvider) -> (r: Result<(), FipsTlsError>)
    ensures
        match r {
            Ok(_) => provider_validated(*provider),
            Err(e) => !provider_validated(*provider) && e == FipsTlsError::NotFips,
        },
{
    if is_validated(provider) {
        Ok(())
    } else {
        Err(FipsTlsError::NotFips)
    }
}

/// The guard for the host's policy on this layer: it always passes. The policy is
/// enforced by [`crate::eaphost::os_fips`], where the platform dependency lives.
pub fn assert_os_fips_mode() -> (r: Result<(), FipsTlsError>)
    ensures
        r is Ok,
{
    Ok(())
}

/// The suites are AES-256-GCM-SHA384, then AES-128-GCM-SHA256, the group is ML-KEM-1024,
/// and the provider offers exactly these.
pub proof fn law_provider_offers_the_approved(
    suites: Vec<rustls::SupportedCipherSuite>,
    groups: Vec<u16>,
    p: rustls::crypto::CryptoProvider,
    q: Arc<rustls::crypto::CryptoProvider>,
)
    requires
        call_ensures(fips_cipher_suites, (), suites),
        call_ensures(fips_kx_groups, (), groups),
        call_ensures(fips_provider, (), p),
        call_ensures(fips_provider_arc, (), q),
    ensures
        suites@.len() == 2,
        suite_code(suites@[0]) == 0x1302,
        suite_code(suites@[1]) == 0x1301,
        groups@.len() == 1,
        groups@[0] == 0x0202,
        provider_offer(p).0.len() == 2,
        provider_offer(p).0[0] == 0x1302,
        provider_offer(p).0[1] == 0x1301,
        provider_offer(p).1 == groups@,
        provider_offer(*q) == provider_offer(p),
        offered_versions().len() == 1,
        offered_versions()[0] == 0x0304,
{
    assert(suite_codes(suites@).len() == suites@.len());
    assert(offered_suites().len() == 2);
    assert(suite_codes(suites@)[0] == suite_code(suites@[0]));
    assert(suite_codes(suites@)[1] == suite_code(suites@[1]));
}

/// The guard passes a validated provider and no other.
pub proof fn law_only_a_validated_provider_passes(
    p: rustls::crypto::CryptoProvider,
    r: Result<(), FipsTlsError>,
    os: Result<(), FipsTlsError>,
)
    requires
        call_ensures(assert_fips, (&p,), r),
        call_ensures(assert_os_fips_mode, (), os),
    ensures
        provider_validated(p) <==> r is Ok,
        !provider_validated(p) ==> (r matches Err(e) && e is NotFips),
        os is Ok,
{
}

} // verus!
