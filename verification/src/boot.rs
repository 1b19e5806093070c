//! The boot decision and the boot attempt's sequencing. The decision picks
//! between a direct, unchecked kernel entry (both digests matched; the stub
//! itself is the trust anchor) and a firmware-mediated load (a digest
//! mismatched; under Secure Boot the firmware rejects the unsigned kernel,
//! without it this is the deliberate recovery path). Both paths install the
//! virtual initrd device before the kernel starts and uninstall it exactly
//! once after control returns, whatever the outcome.

use vstd::prelude::*;

use crate::companion::CompanionInitrd;
use crate::config::EmbeddedConfiguration;
use crate::integrity::{sha256_of, verify_boot_images};

verus! {

/// The PCR into which the running image's unified sections are measured.
pub const TPM_PCR_INDEX_KERNEL_IMAGE: u64 = 11;

/// The PCR reserved for "kernel parameters" class measurements: every
/// companion initrd is measured into it.
pub const TPM_PCR_INDEX_KERNEL_PARAMETERS: u64 = 12;

/// How control is handed to the kernel.
#[derive(Debug, Clone, Copy, PartialEq, Eq, Structural)]
pub enum BootPath {
    /// Both digests matched: load the kernel image directly from the
    /// in-memory buffer and enter it without the firmware's own loader.
    Unchecked,
    /// A digest mismatched: hand the buffer to the firmware's loader and let
    /// its own policy decide.
    Fallback,
}

/// The boot decision: the unchecked path if and only if both the kernel and
/// the initrd verified.
pub fn decide_boot_path(kernel_ok: bool, initrd_ok: bool) -> (p: BootPath)
    ensures
        p == BootPath::Unchecked <==> (kernel_ok && initrd_ok),
{
    if kernel_ok && initrd_ok {
        BootPath::Unchecked
    } else {
        BootPath::Fallback
    }
}

/// Where the virtual initrd device stands within one boot attempt.
#[derive(Debug, Clone, Copy, PartialEq, Eq, Structural)]
pub enum LoaderPhase {
    /// Nothing installed yet.
    Ready,
    /// The device is installed and the kernel may be started.
    Installed,
    /// The kernel returned control and the uninstall was ordered.
    KernelReturned,
    /// The attempt is over.
    Done,
}

/// What the firmware driver must do next.
#[derive(Debug, Clone, Copy, PartialEq, Eq, Structural)]
pub enum BootAction {
    /// Start the kernel over the given path.
    StartKernel(BootPath),
    /// Uninstall the virtual initrd device.
    UninstallLoader,
    /// Return this firmware status: the attempt is over.
    Finish(u64),
}

/// What the firmware reported back after the previous action.
#[derive(Debug, Clone, Copy, PartialEq, Eq, Structural)]
pub enum BootEvent {
    /// The virtual initrd device was installed on the boot handle.
    InstallOk,
    /// The device could not be installed: a hard error that aborts the
    /// attempt before any kernel control transfer, with this status.
    InstallFailed(u64),
    /// The started kernel returned control, with this status: a normal exit,
    /// a load failure, or the fallback path's security violation alike.
    KernelReturned(u64),
    /// The device was uninstalled.
    Uninstalled,
}

/// One boot attempt: the chosen path, the device's phase, and how often an
/// uninstall was ordered.
pub struct BootAttempt {
    /// The path chosen from the verification outcome.
    pub path: BootPath,
    /// Where the virtual device stands.
    pub phase: LoaderPhase,
    /// Whether the device was ever installed.
    pub install_succeeded: bool,
    /// How many uninstall actions were ordered.
    pub uninstall_count: u32,
    /// The status to report when the attempt finishes.
    pub status: u64,
}

impl BootAttempt {
    /// The attempt's invariant: an uninstall is ordered exactly once after a
    /// successful install, and never without one.
    pub open spec fn wf(&self) -> bool {
        match self.phase {
            LoaderPhase::Ready => !self.install_succeeded && self.uninstall_count == 0,
            LoaderPhase::Installed => self.install_succeeded && self.uninstall_count == 0,
            LoaderPhase::KernelReturned => self.install_succeeded && self.uninstall_count == 1,
            LoaderPhase::Done => self.uninstall_count == (
            if self.install_succeeded {
                1u32
            } else {
                0u32
            }),
        }
    }

    /// Which event the attempt can take next.
    pub open spec fn accepts(&self, event: BootEvent) -> bool {
        match self.phase {
            LoaderPhase::Ready => event is InstallOk || event is InstallFailed,
            LoaderPhase::Installed => event is KernelReturned,
            LoaderPhase::KernelReturned => event is Uninstalled,
            LoaderPhase::Done => false,
        }
    }

    /// Begin a boot attempt from the two verification outcomes. The driver's
    /// first duty is installing the virtual initrd device.
    pub fn new(kernel_ok: bool, initrd_ok: bool) -> (b: BootAttempt)
        ensures
            b.wf(),
            b.phase == LoaderPhase::Ready,
            b.path == BootPath::Unchecked <==> (kernel_ok && initrd_ok),
    {
        BootAttempt {
            path: decide_boot_path(kernel_ok, initrd_ok),
            phase: LoaderPhase::Ready,
            install_succeeded: false,
            uninstall_count: 0,
            status: 0,
        }
    }

    /// Take the firmware's report and order the next action.
    ///
    /// The kernel-returned case orders the uninstall unconditionally,
    /// whatever status the kernel load ended with: the device's lifetime is
    /// strictly nested inside the attempt.
    pub fn step(&mut self, event: BootEvent) -> (action: BootAction)
        requires
            old(self).wf(),
            old(self).accepts(event),
        ensures
            final(self).wf(),
            final(self).path == old(self).path,
            event == BootEvent::InstallOk ==> {
                &&& final(self).phase == LoaderPhase::Installed
                &&& final(self).install_succeeded
                &&& action == BootAction::StartKernel(old(self).path)
            },
            event matches BootEvent::InstallFailed(st) ==> {
                &&& final(self).phase == LoaderPhase::Done
                &&& !final(self).install_succeeded
                &&& final(self).uninstall_count == 0
                &&& action == BootAction::Finish(st)
            },
            event matches BootEvent::KernelReturned(st) ==> {
                &&& final(self).phase == LoaderPhase::KernelReturned
                &&& final(self).uninstall_count == old(self).uninstall_count + 1
                &&& final(self).status == st
                &&& action == BootAction::UninstallLoader
            },
            event == BootEvent::Uninstalled ==> {
                &&& final(self).phase == LoaderPhase::Done
                &&& final(self).uninstall_count == old(self).uninstall_count
                &&& action == BootAction::Finish(old(self).status)
            },
    {
        match event {
            BootEvent::InstallOk => {
                self.phase = LoaderPhase::Installed;
                self.install_succeeded = true;
                BootAction::StartKernel(self.path)
            },
            BootEvent::InstallFailed(st) => {
                self.phase = LoaderPhase::Done;
                self.status = st;
                BootAction::Finish(st)
            },
            BootEvent::KernelReturned(st) => {
                self.phase = LoaderPhase::KernelReturned;
                self.status = st;
                self.uninstall_count = self.uninstall_count + 1;
                BootAction::UninstallLoader
            },
            BootEvent::Uninstalled => {
                self.phase = LoaderPhase::Done;
                BootAction::Finish(self.status)
            },
        }
    }
}

/// Cleanup invariant: however the kernel load ended, a finished attempt
/// whose device was installed has ordered the uninstall exactly once; one
/// whose install failed never ordered it.
pub proof fn lemma_cleanup_exactly_once(b: BootAttempt)
    requires
        b.wf(),
        b.phase == LoaderPhase::Done,
    ensures
        b.install_succeeded ==> b.uninstall_count == 1,
        !b.install_succeeded ==> b.uninstall_count == 0,
{
}

/// One planned PCR extension.
#[derive(Debug, Clone, Copy, PartialEq, Eq, Structural)]
pub struct PlannedMeasurement {
    /// The PCR to extend.
    pub pcr_index: u64,
    /// Which buffer to measure: the running image's unified sections
    /// (`None`) or the n-th packed companion initrd.
    pub companion: Option<usize>,
}

/// The Measurer's sequencing. Without a TPM nothing is measured and that is
/// not an error. With one, the running image's unified sections are measured
/// exactly once, before any boot decision, and then each packed companion
/// exactly once, in collection order, into the kernel-parameters PCR.
pub fn measurement_plan(tpm_available: bool, companion_count: usize) -> (r: Vec<
    PlannedMeasurement,
>)
    ensures
        !tpm_available ==> r@.len() == 0,
        tpm_available ==> {
            &&& r@.len() == 1 + companion_count
            &&& r@[0] == (PlannedMeasurement {
                pcr_index: TPM_PCR_INDEX_KERNEL_IMAGE,
                companion: None,
            })
            &&& forall|i: int|
                1 <= i <= companion_count ==> r@[i] == (PlannedMeasurement {
                    pcr_index: TPM_PCR_INDEX_KERNEL_PARAMETERS,
                    companion: Some((i - 1) as usize),
                })
        },
{
    let mut r: Vec<PlannedMeasurement> = Vec::new();
    if !tpm_available {
        return r;
    }
    r.push(PlannedMeasurement { pcr_index: TPM_PCR_INDEX_KERNEL_IMAGE, companion: None });
    let mut i: usize = 0;
    while i < companion_count
        invariant
            0 <= i <= companion_count,
            r@.len() == 1 + i,
            r@[0] == (PlannedMeasurement { pcr_index: TPM_PCR_INDEX_KERNEL_IMAGE, companion: None }),
            forall|j: int|
                1 <= j <= i ==> r@[j] == (PlannedMeasurement {
                    pcr_index: TPM_PCR_INDEX_KERNEL_PARAMETERS,
                    companion: Some((j - 1) as usize),
                }),
        decreases companion_count - i,
    {
        r.push(
            PlannedMeasurement { pcr_index: TPM_PCR_INDEX_KERNEL_PARAMETERS, companion: Some(i) },
        );
        i += 1;
    }
    r
}

/// The concatenation of packed companion archives, in collection order.
pub open spec fn spec_companions_concat(cs: Seq<CompanionInitrd>) -> Seq<u8>
    decreases cs.len(),
{
    if cs.len() == 0 {
        Seq::empty()
    } else {
        spec_companions_concat(cs.drop_last()) + cs.last().spec_bytes()
    }
}

/// The bytes handed to the kernel's own loader: the on-disk initrd with
/// every packed companion appended in collection order.
pub fn combined_initrd(initrd: Vec<u8>, companions: &Vec<CompanionInitrd>) -> (r: Vec<u8>)
    ensures
        r@ == initrd@ + spec_companions_concat(companions@),
{
    let ghost base = initrd@;
    let mut out = initrd;
    let n = companions.len();
    let mut i: usize = 0;
    proof {
        assert(companions@.subrange(0, 0) =~= Seq::<CompanionInitrd>::empty());
        assert(out@ =~= base + spec_companions_concat(companions@.subrange(0, 0)));
    }
    while i < n
        invariant
            0 <= i <= n,
            n == companions@.len(),
            out@ == base + spec_companions_concat(companions@.subrange(0, i as int)),
        decreases n - i,
    {
        out.extend_from_slice(companions[i].bytes().as_slice());
        proof {
            let prefix = companions@.subrange(0, i + 1);
            assert(prefix.drop_last() =~= companions@.subrange(0, i as int));
            assert(prefix.last() == companions@[i as int]);
            assert(out@ =~= base + spec_companions_concat(prefix));
        }
        i += 1;
    }
    proof {
        assert(companions@.subrange(0, n as int) =~= companions@);
    }
    out
}

/// The decisions of one boot, taken together, before any firmware action:
/// the per-artifact verification outcomes, the boot attempt with its chosen
/// path, the ordered measurement plan, and the combined initrd buffer that
/// the virtual device will serve.
pub struct BootPlan {
    /// Whether the kernel's digest matched the embedded one.
    pub kernel_ok: bool,
    /// Whether the initrd's digest matched the embedded one.
    pub initrd_ok: bool,
    /// The attempt, ready for the driver to install the virtual device.
    pub attempt: BootAttempt,
    /// What to extend into which PCR, in order.
    pub measurements: Vec<PlannedMeasurement>,
    /// The on-disk initrd with every packed companion appended.
    pub initrd: Vec<u8>,
}

/// Decide one whole boot: verify both artifacts against the embedded
/// configuration, choose the path, plan the measurements (always, whatever
/// the verification outcome), and assemble the combined initrd.
pub fn plan_boot(
    config: &EmbeddedConfiguration,
    kernel_data: &[u8],
    initrd_data: Vec<u8>,
    tpm_available: bool,
    companions: &Vec<CompanionInitrd>,
) -> (r: BootPlan)
    ensures
        r.kernel_ok == (sha256_of(kernel_data@) == config.kernel_hash@),
        r.initrd_ok == (sha256_of(initrd_data@) == config.initrd_hash@),
        r.attempt.wf(),
        r.attempt.phase == LoaderPhase::Ready,
        r.attempt.path == BootPath::Unchecked <==> (r.kernel_ok && r.initrd_ok),
        !tpm_available ==> r.measurements@.len() == 0,
        tpm_available ==> {
            &&& r.measurements@.len() == 1 + companions@.len()
            &&& r.measurements@[0] == (PlannedMeasurement {
                pcr_index: TPM_PCR_INDEX_KERNEL_IMAGE,
                companion: None,
            })
            &&& forall|i: int|
                1 <= i <= companions@.len() ==> r.measurements@[i] == (PlannedMeasurement {
                    pcr_index: TPM_PCR_INDEX_KERNEL_PARAMETERS,
                    companion: Some((i - 1) as usize),
                })
        },
        r.initrd@ == initrd_data@ + spec_companions_concat(companions@),
{
    let (kernel_ok, initrd_ok) = verify_boot_images(kernel_data, initrd_data.as_slice(), config);
    let attempt = BootAttempt::new(kernel_ok, initrd_ok);
    let measurements = measurement_plan(tpm_available, companions.len());
    let initrd = combined_initrd(initrd_data, companions);
    BootPlan { kernel_ok, initrd_ok, attempt, measurements, initrd }
}

/// Companion absence is non-fatal: with no companions packed, the combined
/// initrd is exactly the original initrd bytes.
pub proof fn lemma_companion_absence(initrd: Seq<u8>, companions: Seq<CompanionInitrd>)
    requires
        companions.len() == 0,
    ensures
        initrd + spec_companions_concat(companions) == initrd,
{
    assert(initrd + spec_companions_concat(companions) =~= initrd);
}

} // verus!
