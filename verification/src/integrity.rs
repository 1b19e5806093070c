//! Boot-time integrity verification: recompute the digest of what was read
//! from the boot volume and compare it, byte for byte, against the digest
//! embedded at build time. A mismatch is a normal, expected outcome, not an
//! error: the caller logs it and boots over the fallback path.

use vstd::prelude::*;

use crate::bytes_eq;
use crate::config::EmbeddedConfiguration;
use crate::Digest;

verus! {

/// What sha2's SHA-256 returns on given bytes.
pub uninterp spec fn sha256_of(data: Seq<u8>) -> Seq<u8>;

/// Relies on sha2::Sha256::digest: a 32-byte digest that is a function of
/// the input bytes alone.
#[verifier::external_body]
pub(crate) fn sha256(data: &[u8]) -> (r: Digest)
    ensures
        r@ == sha256_of(data@),
        r@.len() == 32,
{
    Digest { bytes: <sha2::Sha256 as sha2::Digest>::digest(data).as_slice().to_vec() }
}

/// Whether an image's content digest equals the embedded digest.
pub fn verify_image(data: &[u8], expected: &Digest) -> (ok: bool)
    ensures
        ok == (sha256_of(data@) == expected@),
{
    let computed = sha256(data);
    bytes_eq(computed.bytes.as_slice(), expected.bytes.as_slice())
}

/// Verify the kernel and the initrd independently against the embedded
/// configuration: per-artifact booleans, never a hard error, so the caller
/// can log which one failed and still proceed to measurement.
pub fn verify_boot_images(kernel_data: &[u8], initrd_data: &[u8], config: &EmbeddedConfiguration)
    -> (r: (bool, bool))
    ensures
        r.0 == (sha256_of(kernel_data@) == config.kernel_hash@),
        r.1 == (sha256_of(initrd_data@) == config.initrd_hash@),
{
    let kernel_ok = verify_image(kernel_data, &config.kernel_hash);
    let initrd_ok = verify_image(initrd_data, &config.initrd_hash);
    (kernel_ok, initrd_ok)
}

} // verus!
