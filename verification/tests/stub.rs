use sha2::Digest as _;

use lanzaboote::boot::{
    decide_boot_path, measurement_plan, BootAction, BootAttempt, BootEvent, BootPath, LoaderPhase,
    TPM_PCR_INDEX_KERNEL_IMAGE, TPM_PCR_INDEX_KERNEL_PARAMETERS,
};
use lanzaboote::config::{extract_hash, extract_string, EmbeddedConfiguration, ExtractError};
use lanzaboote::integrity::{verify_boot_images, verify_image};
use lanzaboote::pe_image::pe_section;

/// Build a minimal PE32+ image: a DOS header, the PE signature, a COFF
/// header, an optional header with the given image base and no data
/// directories, and one section header per entry of `sections`
/// (name, content, virtual address), with the content placed at its file
/// offset.
fn build_pe(image_base: u64, sections: &[(&str, Vec<u8>, u32)]) -> Vec<u8> {
    let n = sections.len();
    let opt_size = 112usize;
    let headers_end = 0x58 + opt_size + 40 * n;
    let mut data_offset = (headers_end + 0x1ff) & !0x1ff;
    let mut pe = vec![0u8; headers_end];
    pe[0] = b'M';
    pe[1] = b'Z';
    pe[0x3c..0x40].copy_from_slice(&0x40u32.to_le_bytes());
    pe[0x40] = b'P';
    pe[0x41] = b'E';
    pe[0x44..0x46].copy_from_slice(&0x8664u16.to_le_bytes());
    pe[0x46..0x48].copy_from_slice(&(n as u16).to_le_bytes());
    pe[0x54..0x56].copy_from_slice(&(opt_size as u16).to_le_bytes());
    pe[0x56..0x58].copy_from_slice(&0x0022u16.to_le_bytes());
    pe[0x58..0x5a].copy_from_slice(&0x20bu16.to_le_bytes());
    pe[0x58 + 24..0x58 + 32].copy_from_slice(&image_base.to_le_bytes());
    pe[0x58 + 32..0x58 + 36].copy_from_slice(&0x1000u32.to_le_bytes());
    pe[0x58 + 36..0x58 + 40].copy_from_slice(&0x200u32.to_le_bytes());
    pe[0x58 + 68..0x58 + 70].copy_from_slice(&10u16.to_le_bytes());
    let mut pos = 0x58 + opt_size;
    let mut datas: Vec<(usize, Vec<u8>)> = Vec::new();
    for (name, data, vma) in sections {
        let mut nb = [0u8; 8];
        nb[..name.len()].copy_from_slice(name.as_bytes());
        pe[pos..pos + 8].copy_from_slice(&nb);
        pe[pos + 8..pos + 12].copy_from_slice(&(data.len() as u32).to_le_bytes());
        pe[pos + 12..pos + 16].copy_from_slice(&vma.to_le_bytes());
        let raw_size = (data.len() + 0x1ff) & !0x1ff;
        pe[pos + 16..pos + 20].copy_from_slice(&(raw_size as u32).to_le_bytes());
        pe[pos + 20..pos + 24].copy_from_slice(&(data_offset as u32).to_le_bytes());
        datas.push((data_offset, data.clone()));
        data_offset += raw_size;
        pos += 40;
    }
    pe.resize(data_offset, 0);
    for (off, d) in datas {
        pe[off..off + d.len()].copy_from_slice(&d);
    }
    pe
}

fn sha256(data: &[u8]) -> Vec<u8> {
    sha2::Sha256::digest(data).to_vec()
}

/// A stub image carrying the full five-section configuration for the given
/// kernel and initrd bytes.
fn config_image(kernel: &[u8], initrd: &[u8], cmdline: &str) -> Vec<u8> {
    let mut va = 0x1000u32;
    let mut sections: Vec<(&str, Vec<u8>, u32)> = Vec::new();
    for (name, data) in [
        (".kernelp", b"\\EFI\\nixos\\kernel.efi".to_vec()),
        (".kernelh", sha256(kernel)),
        (".initrdp", b"\\EFI\\nixos\\initrd".to_vec()),
        (".initrdh", sha256(initrd)),
        (".cmdline", cmdline.as_bytes().to_vec()),
    ] {
        sections.push((name, data, va));
        va += 0x1000;
    }
    build_pe(0x140000000, &sections)
}

#[test]
fn pe_section_finds_embedded_content() {
    let pe = build_pe(0x1000, &[(".osrel", b"NAME=NixOS".to_vec(), 0x1000)]);
    let content = pe_section(&pe, b".osrel").unwrap();
    assert_eq!(content, b"NAME=NixOS");
    assert!(pe_section(&pe, b".absent").is_none());
    assert!(pe_section(b"garbage", b".osrel").is_none());
}

#[test]
fn extraction_round_trips_the_configuration() {
    let kernel = b"kernel image bytes".to_vec();
    let initrd = b"initrd bytes".to_vec();
    let pe = config_image(&kernel, &initrd, "init=/sbin/init quiet");
    let config = EmbeddedConfiguration::new(&pe).unwrap();
    assert_eq!(config.kernel_filename, "\\EFI\\nixos\\kernel.efi");
    assert_eq!(config.initrd_filename, "\\EFI\\nixos\\initrd");
    assert_eq!(config.cmdline, "init=/sbin/init quiet");
    assert_eq!(config.kernel_hash.bytes, sha256(&kernel));
    assert_eq!(config.initrd_hash.bytes, sha256(&initrd));
}

#[test]
fn extraction_fails_wholesale_on_a_missing_section() {
    let pe = build_pe(
        0x1000,
        &[
            (".kernelp", b"\\k".to_vec(), 0x1000),
            (".kernelh", vec![0u8; 32], 0x2000),
        ],
    );
    assert!(EmbeddedConfiguration::new(&pe).is_err());
}

#[test]
fn extract_hash_requires_exactly_32_bytes() {
    let pe = build_pe(0x1000, &[(".kernelh", vec![0u8; 31], 0x1000)]);
    assert!(extract_hash(&pe, ".kernelh").is_err());
}

#[test]
fn extract_string_rejects_invalid_utf8() {
    let pe = build_pe(0x1000, &[(".cmdline", vec![0xff, 0xfe, 0x80], 0x1000)]);
    assert_eq!(
        extract_string(&pe, ".cmdline"),
        Err(ExtractError::InvalidParameter)
    );
}

#[test]
fn verify_image_accepts_matching_digest_and_rejects_a_bit_flip() {
    let kernel = b"vmlinuz content".to_vec();
    let pe = config_image(&kernel, b"initrd", "quiet");
    let config = EmbeddedConfiguration::new(&pe).unwrap();
    assert!(verify_image(&kernel, &config.kernel_hash));
    let mut tampered = kernel.clone();
    tampered[0] ^= 0x01;
    assert!(!verify_image(&tampered, &config.kernel_hash));
}

#[test]
fn boot_path_truth_table() {
    assert_eq!(decide_boot_path(true, true), BootPath::Unchecked);
    assert_eq!(decide_boot_path(true, false), BootPath::Fallback);
    assert_eq!(decide_boot_path(false, true), BootPath::Fallback);
    assert_eq!(decide_boot_path(false, false), BootPath::Fallback);
}

#[test]
fn measurement_plan_without_tpm_is_empty() {
    assert!(measurement_plan(false, 3).is_empty());
}

#[test]
fn measurement_plan_measures_image_then_each_companion_once() {
    let plan = measurement_plan(true, 2);
    assert_eq!(plan.len(), 3);
    assert_eq!(plan[0].pcr_index, TPM_PCR_INDEX_KERNEL_IMAGE);
    assert_eq!(plan[0].companion, None);
    assert_eq!(plan[1].pcr_index, TPM_PCR_INDEX_KERNEL_PARAMETERS);
    assert_eq!(plan[1].companion, Some(0));
    assert_eq!(plan[2].pcr_index, TPM_PCR_INDEX_KERNEL_PARAMETERS);
    assert_eq!(plan[2].companion, Some(1));
}

#[test]
fn boot_attempt_uninstalls_exactly_once_on_fallback() {
    // The scenario: tampered initrd, intact kernel.
    let kernel = b"good kernel".to_vec();
    let initrd = b"good initrd".to_vec();
    let pe = config_image(&kernel, &initrd, "quiet");
    let config = EmbeddedConfiguration::new(&pe).unwrap();
    let mut tampered = initrd.clone();
    tampered[3] ^= 0x80;
    let (kernel_ok, initrd_ok) = verify_boot_images(&kernel, &tampered, &config);
    assert!(kernel_ok);
    assert!(!initrd_ok);

    // Measurements are still planned for the image and any companions.
    assert_eq!(measurement_plan(true, 1).len(), 2);

    let mut attempt = BootAttempt::new(kernel_ok, initrd_ok);
    assert_eq!(attempt.path, BootPath::Fallback);
    let action = attempt.step(BootEvent::InstallOk);
    assert_eq!(action, BootAction::StartKernel(BootPath::Fallback));
    // The firmware's loader rejects the unsigned kernel under Secure Boot;
    // the uninstall is ordered all the same.
    let action = attempt.step(BootEvent::KernelReturned(0x1a));
    assert_eq!(action, BootAction::UninstallLoader);
    let action = attempt.step(BootEvent::Uninstalled);
    assert_eq!(action, BootAction::Finish(0x1a));
    assert_eq!(attempt.phase, LoaderPhase::Done);
    assert_eq!(attempt.uninstall_count, 1);
}

#[test]
fn boot_attempt_uninstalls_exactly_once_on_success() {
    let mut attempt = BootAttempt::new(true, true);
    assert_eq!(attempt.path, BootPath::Unchecked);
    assert_eq!(
        attempt.step(BootEvent::InstallOk),
        BootAction::StartKernel(BootPath::Unchecked)
    );
    assert_eq!(
        attempt.step(BootEvent::KernelReturned(0)),
        BootAction::UninstallLoader
    );
    assert_eq!(attempt.step(BootEvent::Uninstalled), BootAction::Finish(0));
    assert_eq!(attempt.uninstall_count, 1);
}

#[test]
fn boot_attempt_never_uninstalls_after_a_failed_install() {
    let mut attempt = BootAttempt::new(true, true);
    let action = attempt.step(BootEvent::InstallFailed(5));
    assert_eq!(action, BootAction::Finish(5));
    assert_eq!(attempt.phase, LoaderPhase::Done);
    assert_eq!(attempt.uninstall_count, 0);
}

#[test]
fn plan_boot_composes_the_whole_pipeline() {
    let kernel = b"the kernel".to_vec();
    let initrd = b"the initrd".to_vec();
    let pe = config_image(&kernel, &initrd, "quiet");
    let config = EmbeddedConfiguration::new(&pe).unwrap();
    let mut tampered = initrd.clone();
    tampered[0] ^= 0x40;
    let companions = vec![lanzaboote::companion::CompanionInitrd::Credentials(b"CPIO".to_vec())];
    let plan = lanzaboote::boot::plan_boot(&config, &kernel, tampered, true, &companions);
    assert!(plan.kernel_ok);
    assert!(!plan.initrd_ok);
    assert_eq!(plan.attempt.path, BootPath::Fallback);
    assert_eq!(plan.measurements.len(), 2);
    let mut expected = initrd.clone();
    expected[0] ^= 0x40;
    expected.extend_from_slice(b"CPIO");
    assert_eq!(plan.initrd, expected);
}

#[test]
fn extract_string_rejects_characters_beyond_the_wide_form() {
    // A four-byte UTF-8 character lies outside the basic multilingual plane
    // and has no UCS-2 form.
    let pe = build_pe(
        0x1000,
        &[(".cmdline", "quiet \u{1F512}".as_bytes().to_vec(), 0x1000)],
    );
    assert_eq!(
        extract_string(&pe, ".cmdline"),
        Err(ExtractError::InvalidParameter)
    );
}

#[test]
fn extract_string_rejects_an_interior_nul() {
    // Valid UTF-8, but a null-terminated wide string cannot hold it.
    let pe = build_pe(0x1000, &[(".kernelp", b"a\x00b".to_vec(), 0x1000)]);
    assert_eq!(
        extract_string(&pe, ".kernelp"),
        Err(ExtractError::InvalidParameter)
    );
}

#[test]
fn extraction_fails_wholesale_on_a_non_wide_string() {
    let kernel = b"k".to_vec();
    let initrd = b"i".to_vec();
    let pe = config_image(&kernel, &initrd, "quiet \u{1F512}");
    assert!(EmbeddedConfiguration::new(&pe).is_err());
}
