//! The guard on the host's policy must fail closed where it cannot confirm FIPS
//! mode.
use usg_supplicant::eaphost::error::EapHostError;
use usg_supplicant::eaphost::os_fips::{
    assert_fips_policy, assert_policy, fips_policy_enabled, policy_from_read,
};

#[test]
fn non_windows_reports_unsupported_and_fails_closed() {
    assert_eq!(fips_policy_enabled(), Err(EapHostError::NotWindows));
    assert_eq!(assert_fips_policy(), Err(EapHostError::NotWindows));
}

#[test]
fn windows_gate_returns_a_definite_answer() {
    // Either way it must not panic and must be deterministic.
    let _ = fips_policy_enabled();
    let _ = assert_fips_policy();
    assert_eq!(fips_policy_enabled(), fips_policy_enabled());
    assert_eq!(assert_fips_policy(), assert_fips_policy());
}

#[test]
fn policy_reads_decide_the_gate() {
    assert_eq!(assert_policy(policy_from_read(0, 1)), Ok(()));
    assert_eq!(
        assert_policy(policy_from_read(0, 0)),
        Err(EapHostError::OsFipsDisabled)
    );
    assert_eq!(
        assert_policy(policy_from_read(0, 2)),
        Err(EapHostError::OsFipsDisabled)
    );
    assert_eq!(
        assert_policy(policy_from_read(5, 1)),
        Err(EapHostError::Win32 { code: 5 })
    );
}

#[test]
fn host_errors_in_words() {
    assert_eq!(
        EapHostError::Win32 { code: 2147942405 }.message(),
        "Win32 error (status 2147942405)"
    );
    assert_eq!(
        EapHostError::OsFipsDisabled.message(),
        "OS FIPS policy is not enabled (FipsAlgorithmPolicy)"
    );
    assert_eq!(
        EapHostError::NotWindows.message(),
        "operation supported only on Windows"
    );
}
