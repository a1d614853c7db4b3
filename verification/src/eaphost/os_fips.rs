//! The guard on the host's FIPS policy.
//!
//! It complements the provider's self-check: a validated TLS module is necessary
//! but not sufficient, as the key store's half of the boundary is only validated
//! while the host itself is in FIPS mode.
use crate::eaphost::error::EapHostError;
use vstd::prelude::*;

verus! {

/// What a read of the policy value says: enabled if it is one, and the platform's
/// error if it could not be read.
pub fn policy_from_read(status: u32, value: u32) -> (r: Result<bool, EapHostError>)
    ensures
        r == (if status == 0 {
            Ok::<bool, EapHostError>(value == 1)
        } else {
            Err(EapHostError::Win32 { code: status })
        }),
{
    if status == 0 {
        Ok(value == 1)
    } else {
        Err(EapHostError::Win32 { code: status })
    }
}

/// Whether the policy is enabled, on a host without a policy to read: always
/// unsupported, so that the guard fails closed. A Windows host reads its registry
/// and asks [`policy_from_read`].
pub fn fips_policy_enabled() -> (r: Result<bool, EapHostError>)
    ensures
        r == Err::<bool, EapHostError>(EapHostError::NotWindows),
{
    Err(EapHostError::NotWindows)
}

/// Fail-closed guard on a read of the policy: `Ok` only when it is enabled.
pub fn assert_policy(read: Result<bool, EapHostError>) -> (r: Result<(), EapHostError>)
    ensures
        r is Ok <==> read == Ok::<bool, EapHostError>(true),
        read == Ok::<bool, EapHostError>(false) ==> r == Err::<(), EapHostError>(
            EapHostError::OsFipsDisabled,
        ),
        read matches Err(e) ==> r == Err::<(), EapHostError>(e),
{
    match read {
        Ok(true) => Ok(()),
        Ok(false) => Err(EapHostError::OsFipsDisabled),
        Err(e) => Err(e),
    }
}

/// Fail-closed guard, on a host without a policy to read: never passes.
pub fn assert_fips_policy() -> (r: Result<(), EapHostError>)
    ensures
        r == Err::<(), EapHostError>(EapHostError::NotWindows),
{
    assert_policy(fips_policy_enabled())
}

/// The guard passes exactly if the value could be read and is one; a failed read is
/// reported with its status, and any other value as a policy that is off.
pub proof fn law_policy_must_be_one(
    status: u32,
    value: u32,
    read: Result<bool, EapHostError>,
    r: Result<(), EapHostError>,
)
    requires
        call_ensures(policy_from_read, (status, value), read),
        call_ensures(assert_policy, (read,), r),
    ensures
        r is Ok <==> status == 0 && value == 1,
        status != 0 ==> r == Err::<(), EapHostError>(EapHostError::Win32 { code: status }),
        status == 0 && value != 1 ==> r == Err::<(), EapHostError>(EapHostError::OsFipsDisabled),
{
}

/// Without a policy to read the guard never passes, and says so.
pub proof fn law_no_policy_fails_closed(
    read: Result<bool, EapHostError>,
    r: Result<(), EapHostError>,
    q: Result<(), EapHostError>,
)
    requires
        call_ensures(fips_policy_enabled, (), read),
        call_ensures(assert_policy, (read,), r),
        call_ensures(assert_fips_policy, (), q),
    ensures
        r is Err,
        q == r,
        q == Err::<(), EapHostError>(EapHostError::NotWindows),
{
}

} // verus!
