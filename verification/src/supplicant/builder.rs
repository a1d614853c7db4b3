//! Putting a session together: the inner method on the client's credential, and
//! the outer driver on the same trust anchors.
use crate::fips_tls::backend::{client_config, duplicate_anchors, ClientAuth};
use crate::fips_tls::error::FipsTlsError;
use crate::supplicant::driver::{DriverConfig, TeapDriver};
use crate::supplicant::error::DriverError;
use crate::supplicant::inner_tls::EapTlsInner;
use rustls::RootCertStore;
use vstd::prelude::*;

verus! {

/// A driver and an inner method of one session: both check the configured server
/// name against the same trust anchors, the outer one presents no certificate, and
/// the client's credential (a chain with its key, or a resolver) authenticates the
/// inner one.
pub open spec fn wired(
    cfg: DriverConfig,
    anchors: Seq<Seq<u8>>,
    client_auth: ClientAuth,
    driver: TeapDriver,
    inner: EapTlsInner,
) -> bool {
    &&& driver.wf()
    &&& inner.wf()
    &&& driver.configuration() == cfg
    &&& driver.state() == crate::supplicant::driver::first_state()
    &&& inner.standing() == crate::supplicant::inner_tls::first_standing()
    &&& inner.budget() == cfg.max_fragment
    &&& !driver.outer_tunnel().guard_passed()
    &&& !inner.inner_tunnel().guard_passed()
    &&& crate::fips_tls::backend::is_new(driver.outer_tunnel().connection())
    &&& crate::fips_tls::backend::is_new(inner.inner_tunnel().connection())
    &&& driver.terms() == (
        crate::fips_tls::backend::pinned(anchors, ClientAuth::Anonymous),
        cfg.server_name@,
    )
    &&& inner.terms() == (
        crate::fips_tls::backend::pinned(anchors, client_auth),
        cfg.server_name@,
    )
}

/// Build the inner method on the client's credential and wire it to an outer
/// driver that trusts the same anchors.
pub fn assemble_driver(cfg: DriverConfig, roots: RootCertStore, client_auth: ClientAuth) -> (r: Result<
    (TeapDriver, EapTlsInner),
    DriverError,
>)
    ensures
        match r {
            Ok((driver, inner)) => wired(
                cfg,
                crate::fips_tls::backend::store_anchors(roots),
                client_auth,
                driver,
                inner,
            ),
            Err(e) => (e matches DriverError::Tls(t) && t is Rustls) || (e matches DriverError::Protocol(
                m,
            ) && m@ == "inner EAP-TLS construction failed"@),
        },
        !client_auth.usable() ==> (r matches Err(DriverError::Tls(e)) && e == client_auth.refusal()),
        client_auth.usable() && !crate::fips_tls::backend::is_server_name(cfg.server_name@) ==> (
        r matches Err(DriverError::Protocol(m)) && m@ == "inner EAP-TLS construction failed"@),
{
    let inner_config = match client_config(duplicate_anchors(&roots), client_auth) {
        Err(e) => {
            return Err(DriverError::Tls(e));
        },
        Ok(c) => c,
    };
    match EapTlsInner::new(inner_config, cfg.server_name.as_str(), cfg.max_fragment) {
        Err(_) => Err(DriverError::Protocol("inner EAP-TLS construction failed")),
        Ok(inner) => match TeapDriver::new(cfg, roots) {
            Err(e) => Err(e),
            Ok(driver) => Ok((driver, inner)),
        },
    }
}

/// Both ends of a session check the configured name against the same anchors, on TLS 1.3
/// with the same suites and groups. The outer one presents nothing; the inner one presents
/// the client's credential and nothing else. Both stand at their beginning.
pub proof fn law_both_tunnels_trust_the_same(
    cfg: DriverConfig,
    roots: RootCertStore,
    client_auth: ClientAuth,
    driver: TeapDriver,
    inner: EapTlsInner,
)
    requires
        call_ensures(
            assemble_driver,
            (cfg, roots, client_auth),
            Ok::<(TeapDriver, EapTlsInner), DriverError>((driver, inner)),
        ),
    ensures
        driver.terms().1 == cfg.server_name@,
        inner.terms().1 == cfg.server_name@,
        driver.terms().0.3 == crate::fips_tls::backend::store_anchors(roots),
        inner.terms().0.3 == crate::fips_tls::backend::store_anchors(roots),
        driver.terms().0.0 == seq![0x0304u16] && inner.terms().0.0 == seq![0x0304u16],
        driver.terms().0.1 == inner.terms().0.1,
        driver.terms().0.2 == seq![0x0202u16] && inner.terms().0.2 == seq![0x0202u16],
        driver.terms().0.4.len() == 0,
        driver.terms().0.5 is None,
        driver.terms().0.6 is None,
        client_auth is Anonymous ==> inner.terms().0.4.len() == 0 && inner.terms().0.5 is None
            && inner.terms().0.6 is None,
        client_auth matches ClientAuth::SoftwareCert { chain, key } ==> {
            &&& inner.terms().0.4.len() == chain@.len()
            &&& forall|i: int|
                0 <= i < chain@.len() ==> #[trigger] inner.terms().0.4[i] == chain@[i]@
            &&& inner.terms().0.5 == Some(key)
            &&& inner.terms().0.6 is None
        },
        client_auth matches ClientAuth::Resolver(resolver) ==> inner.terms().0.4.len() == 0
            && inner.terms().0.5 is None && inner.terms().0.6 == Some(resolver),
        driver.configuration() == cfg,
        inner.budget() == cfg.max_fragment,
        driver.state().phase is ExpectStart,
        driver.state().pending is None,
        driver.state().queue.len() == 0,
        driver.state().inner_unused,
        inner.standing().state is Handshake,
        !inner.standing().started,
        inner.standing().queue.len() == 0,
        !driver.outer_tunnel().guard_passed(),
        !inner.inner_tunnel().guard_passed(),
{
}

/// No session comes of a credential that cannot be used, nor of a name that is none.
pub proof fn law_unusable_session_is_refused(
    cfg: DriverConfig,
    roots: RootCertStore,
    client_auth: ClientAuth,
    r: Result<(TeapDriver, EapTlsInner), DriverError>,
)
    requires
        call_ensures(assemble_driver, (cfg, roots, client_auth), r),
    ensures
        !crate::fips_tls::backend::is_server_name(cfg.server_name@) ==> r is Err,
        (client_auth matches ClientAuth::SoftwareCert { chain, key }
            && !crate::fips_tls::backend::is_credential(crate::bytes::octets_of(chain@), key))
            ==> r matches Err(DriverError::Tls(FipsTlsError::Rustls(_))),
        (!(client_auth is SoftwareCert) && !crate::fips_tls::backend::is_server_name(
            cfg.server_name@,
        )) ==> (r matches Err(DriverError::Protocol(m)) && m@ == "inner EAP-TLS construction failed"@),
{
}

} // verus!
