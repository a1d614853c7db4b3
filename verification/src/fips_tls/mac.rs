//! HMAC and digests from the validated module.
use vstd::prelude::*;

verus! {

/// The SHA-256 digest of a byte string, as `aws_lc_rs::digest::digest` computes it.
pub uninterp spec fn sha256_of(data: Seq<u8>) -> Seq<u8>;

/// The SHA-384 digest of a byte string, as `aws_lc_rs::digest::digest` computes it.
pub uninterp spec fn sha384_of(data: Seq<u8>) -> Seq<u8>;

/// HMAC-SHA-256 of `data` under `key`, as `aws_lc_rs::hmac::sign` computes it.
pub uninterp spec fn hmac_sha256_of(key: Seq<u8>, data: Seq<u8>) -> Seq<u8>;

/// HMAC-SHA-384 of `data` under `key`, as `aws_lc_rs::hmac::sign` computes it.
pub uninterp spec fn hmac_sha384_of(key: Seq<u8>, data: Seq<u8>) -> Seq<u8>;

/// `aws_lc_rs::digest::digest` with SHA-256: 32 octets that the data alone decides.
#[verifier::external_body]
pub(crate) fn sha256(data: &[u8]) -> (d: Vec<u8>)
    ensures
        d@ == sha256_of(data@),
        d@.len() == 32,
{
    aws_lc_rs::digest::digest(&aws_lc_rs::digest::SHA256, data).as_ref().to_vec()
}

/// `aws_lc_rs::digest::digest` with SHA-384: 48 octets that the data alone decides.
#[verifier::external_body]
pub(crate) fn sha384(data: &[u8]) -> (d: Vec<u8>)
    ensures
        d@ == sha384_of(data@),
        d@.len() == 48,
{
    aws_lc_rs::digest::digest(&aws_lc_rs::digest::SHA384, data).as_ref().to_vec()
}

/// `aws_lc_rs::hmac::sign` with HMAC-SHA-256: 32 octets that key and data decide.
#[verifier::external_body]
fn hmac_sha256(key: &[u8], data: &[u8]) -> (tag: Vec<u8>)
    ensures
        tag@ == hmac_sha256_of(key@, data@),
        tag@.len() == 32,
{
    let k = aws_lc_rs::hmac::Key::new(aws_lc_rs::hmac::HMAC_SHA256, key);
    aws_lc_rs::hmac::sign(&k, data).as_ref().to_vec()
}

/// `aws_lc_rs::hmac::sign` with HMAC-SHA-384: 48 octets that key and data decide.
#[verifier::external_body]
fn hmac_sha384(key: &[u8], data: &[u8]) -> (tag: Vec<u8>)
    ensures
        tag@ == hmac_sha384_of(key@, data@),
        tag@.len() == 48,
{
    let k = aws_lc_rs::hmac::Key::new(aws_lc_rs::hmac::HMAC_SHA384, key);
    aws_lc_rs::hmac::sign(&k, data).as_ref().to_vec()
}

/// The hash of a cipher suite.
#[derive(Debug, Clone, Copy, PartialEq, Eq, Structural)]
pub enum MacHash {
    /// SHA-256.
    Sha256,
    /// SHA-384.
    Sha384,
}

/// HMAC over the negotiated suite's hash: SHA-256 for AES-128-GCM, SHA-384 for
/// AES-256-GCM.
#[derive(Debug, Clone, Copy, PartialEq, Eq, Structural)]
pub struct AwsLcMac {
    /// The hash.
    pub hash: MacHash,
}

impl AwsLcMac {
    /// Octets of a tag.
    pub open spec fn tag_len(self) -> nat {
        match self.hash {
            MacHash::Sha256 => 32,
            MacHash::Sha384 => 48,
        }
    }

    /// The tag of `data` under `key`.
    pub open spec fn tag(self, key: Seq<u8>, data: Seq<u8>) -> Seq<u8> {
        match self.hash {
            MacHash::Sha256 => hmac_sha256_of(key, data),
            MacHash::Sha384 => hmac_sha384_of(key, data),
        }
    }

    /// HMAC-SHA-256.
    pub fn sha256() -> (m: Self)
        ensures
            m.hash == MacHash::Sha256,
    {
        AwsLcMac { hash: MacHash::Sha256 }
    }

    /// HMAC-SHA-384.
    pub fn sha384() -> (m: Self)
        ensures
            m.hash == MacHash::Sha384,
    {
        AwsLcMac { hash: MacHash::Sha384 }
    }

    /// Octets of a tag.
    pub fn hash_len(&self) -> (n: usize)
        ensures
            n == self.tag_len(),
    {
        match self.hash {
            MacHash::Sha256 => 32,
            MacHash::Sha384 => 48,
        }
    }

    /// The tag of `data` under `key`: as many octets as [`AwsLcMac::hash_len`] says.
    pub fn hmac(&self, key: &[u8], data: &[u8]) -> (t: Vec<u8>)
        ensures
            t@ == self.tag(key@, data@),
            t@.len() == self.tag_len(),
    {
        match self.hash {
            MacHash::Sha256 => hmac_sha256(key, data),
            MacHash::Sha384 => hmac_sha384(key, data),
        }
    }
}

/// The tag is that of the hash that was chosen, over the key and the data in their places:
/// 32 octets for SHA-256 and 48 for SHA-384.
pub proof fn law_tag_is_of_the_chosen_hash(
    short: AwsLcMac,
    long: AwsLcMac,
    key: &[u8],
    data: &[u8],
    t: Vec<u8>,
    u: Vec<u8>,
    n: usize,
    m: usize,
)
    requires
        call_ensures(AwsLcMac::sha256, (), short),
        call_ensures(AwsLcMac::sha384, (), long),
        call_ensures(AwsLcMac::hmac, (&short, key, data), t),
        call_ensures(AwsLcMac::hmac, (&long, key, data), u),
        call_ensures(AwsLcMac::hash_len, (&short,), n),
        call_ensures(AwsLcMac::hash_len, (&long,), m),
    ensures
        t@ == hmac_sha256_of(key@, data@),
        u@ == hmac_sha384_of(key@, data@),
        t@.len() == n,
        u@.len() == m,
        n == 32,
        m == 48,
{
}

} // verus!
