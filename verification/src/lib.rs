//! A measured, Secure-Boot-compatible chain-loader library for Linux kernels
//! on UEFI firmware.
//!
//! Build time: plan the PE sections that carry a boot configuration inside a
//! signable stub binary, and decide whether the proposed parameters are
//! trustworthy enough to sign. Boot time: recover that configuration from the
//! stub's own loaded image, verify the kernel and initrd against the embedded
//! hashes, measure what was loaded into TPM PCRs, collect companion initrds,
//! and sequence how control is handed to the kernel.

use vstd::prelude::*;

pub mod boot;
pub mod companion;
pub mod config;
pub mod hexfmt;
pub mod integrity;
pub mod pe;
pub mod pe_image;
pub mod policy;

verus! {

/// A 32-byte content digest: the only cross-phase contract between the
/// build-time tool and the boot-time stub.
pub struct Digest {
    pub bytes: Vec<u8>,
}

impl View for Digest {
    type V = Seq<u8>;

    open spec fn view(&self) -> Seq<u8> {
        self.bytes@
    }
}

impl Digest {
    /// A digest is exactly 32 bytes long.
    pub open spec fn wf(&self) -> bool {
        self.bytes@.len() == 32
    }
}

/// Byte-for-byte comparison of two byte strings.
pub fn bytes_eq(a: &[u8], b: &[u8]) -> (r: bool)
    ensures
        r == (a@ == b@),
{
    if a.len() != b.len() {
        proof {
            assert(a@.len() != b@.len());
        }
        return false;
    }
    let n = a.len();
    let mut i: usize = 0;
    while i < n
        invariant
            n == a@.len() == b@.len(),
            0 <= i <= n,
            forall|j: int| 0 <= j < i ==> a@[j] == b@[j],
        decreases n - i,
    {
        if a[i] != b[i] {
            return false;
        }
        i += 1;
    }
    proof {
        assert(a@ =~= b@);
    }
    true
}

} // verus!
