use lanzaboote::pe::{
    esp_relative_path_string, join_spaces, lanzaboote_image, objcopy_args, plan_offsets, s,
    stub_offset, wrap_initrd, LayoutError,
};

/// Build a minimal PE32+ image: a DOS header, the PE signature, a COFF
/// header, an optional header with the given image base and no data
/// directories, and one section header per entry of `sections`
/// (name, content, virtual address), with the content placed at its file
/// offset.
fn build_pe(image_base: u64, sections: &[(&str, Vec<u8>, u32)]) -> Vec<u8> {
    let n = sections.len();
    let opt_size = 112usize;
    let headers_end = 0x58 + opt_size + 40 * n;
    let mut data_offset = (headers_end + 0x1ff) & !0x1ff;
    let mut pe = vec![0u8; headers_end];
    pe[0] = b'M';
    pe[1] = b'Z';
    pe[0x3c..0x40].copy_from_slice(&0x40u32.to_le_bytes());
    pe[0x40] = b'P';
    pe[0x41] = b'E';
    pe[0x44..0x46].copy_from_slice(&0x8664u16.to_le_bytes());
    pe[0x46..0x48].copy_from_slice(&(n as u16).to_le_bytes());
    pe[0x54..0x56].copy_from_slice(&(opt_size as u16).to_le_bytes());
    pe[0x56..0x58].copy_from_slice(&0x0022u16.to_le_bytes());
    pe[0x58..0x5a].copy_from_slice(&0x20bu16.to_le_bytes());
    pe[0x58 + 24..0x58 + 32].copy_from_slice(&image_base.to_le_bytes());
    pe[0x58 + 32..0x58 + 36].copy_from_slice(&0x1000u32.to_le_bytes());
    pe[0x58 + 36..0x58 + 40].copy_from_slice(&0x200u32.to_le_bytes());
    pe[0x58 + 68..0x58 + 70].copy_from_slice(&10u16.to_le_bytes());
    let mut pos = 0x58 + opt_size;
    let mut datas: Vec<(usize, Vec<u8>)> = Vec::new();
    for (name, data, vma) in sections {
        let mut nb = [0u8; 8];
        nb[..name.len()].copy_from_slice(name.as_bytes());
        pe[pos..pos + 8].copy_from_slice(&nb);
        pe[pos + 8..pos + 12].copy_from_slice(&(data.len() as u32).to_le_bytes());
        pe[pos + 12..pos + 16].copy_from_slice(&vma.to_le_bytes());
        let raw_size = (data.len() + 0x1ff) & !0x1ff;
        pe[pos + 16..pos + 20].copy_from_slice(&(raw_size as u32).to_le_bytes());
        pe[pos + 20..pos + 24].copy_from_slice(&(data_offset as u32).to_le_bytes());
        datas.push((data_offset, data.clone()));
        data_offset += raw_size;
        pos += 40;
    }
    pe.resize(data_offset, 0);
    for (off, d) in datas {
        pe[off..off + d.len()].copy_from_slice(&d);
    }
    pe
}

#[test]
fn to_objcopy_renders_name_file_and_hex_offset() {
    let section = s(".osrel", "/tmp/os-release", 0x2a000);
    let args = section.to_objcopy();
    assert_eq!(args.len(), 4);
    assert_eq!(args[0], "--add-section");
    assert_eq!(args[1], ".osrel=/tmp/os-release");
    assert_eq!(args[2], "--change-section-vma");
    assert_eq!(args[3], ".osrel=0x2a000");
}

#[test]
fn to_objcopy_renders_zero_offset() {
    let section = s(".initrd", "initrd.img", 0);
    let args = section.to_objcopy();
    assert_eq!(args[3], ".initrd=0x0");
}

#[test]
fn objcopy_args_appends_stub_and_output() {
    let sections = vec![s(".osrel", "os", 16), s(".cmdline", "cmd", 255)];
    let args = objcopy_args(&sections, "stub.efi", "out.efi");
    assert_eq!(
        args,
        vec![
            "--add-section",
            ".osrel=os",
            "--change-section-vma",
            ".osrel=0x10",
            "--add-section",
            ".cmdline=cmd",
            "--change-section-vma",
            ".cmdline=0xff",
            "stub.efi",
            "out.efi",
        ]
    );
}

#[test]
fn esp_relative_path_uses_backslashes() {
    let r = esp_relative_path_string("/boot", "/boot/EFI/nixos/kernel.efi");
    assert_eq!(r, "\\EFI\\nixos\\kernel.efi");
}

#[test]
fn esp_relative_path_with_trailing_slash_prefix() {
    let r = esp_relative_path_string("/boot/", "/boot/EFI/a");
    assert_eq!(r, "\\EFI\\a");
}

#[test]
fn esp_relative_path_of_the_root_itself() {
    let r = esp_relative_path_string("/boot", "/boot");
    assert_eq!(r, "\\");
}

#[test]
fn join_spaces_joins_tokens() {
    let items = vec!["init=/sbin/init".to_string(), "quiet".to_string()];
    assert_eq!(join_spaces(&items), "init=/sbin/init quiet");
}

#[test]
fn join_spaces_of_nothing_is_empty() {
    let items: Vec<String> = Vec::new();
    assert_eq!(join_spaces(&items), "");
}

#[test]
fn plan_offsets_are_cumulative() {
    let offs = plan_offsets(100, &vec![10, 20, 30]).unwrap();
    assert_eq!(offs, vec![100, 110, 130]);
}

#[test]
fn plan_offsets_reports_overflow() {
    let r = plan_offsets(u64::MAX - 5, &vec![10]);
    assert_eq!(r, Err(LayoutError::OffsetOverflow));
}

#[test]
fn stub_offset_is_last_section_end_plus_image_base() {
    let pe = build_pe(0x140000000, &[(".text", vec![0x90; 64], 0x1000)]);
    assert_eq!(stub_offset(&pe), Ok(0x140000000 + 0x1000 + 64));
}

#[test]
fn stub_offset_rejects_garbage() {
    assert_eq!(stub_offset(b"not a pe image"), Err(LayoutError::NotPe));
}

#[test]
fn lanzaboote_image_plans_four_sections() {
    let stub = build_pe(0x140000000, &[(".text", vec![0x90; 32], 0x1000)]);
    let start = 0x140000000 + 0x1000 + 32;
    let cmdline = vec!["init=/sbin/init".to_string(), "quiet".to_string()];
    let plan = lanzaboote_image(
        &stub,
        "/nix/store/os-release",
        7,
        &cmdline,
        "/boot/EFI/nixos/kernel.efi",
        "/boot/EFI/nixos/initrd",
        "/boot",
        "/tmp/cmdline",
        "/tmp/initrdp",
        "/tmp/kernelp",
    )
    .unwrap();
    assert_eq!(plan.cmdline_contents, "init=/sbin/init quiet");
    assert_eq!(plan.kernel_path_contents, "\\EFI\\nixos\\kernel.efi");
    assert_eq!(plan.initrd_path_contents, "\\EFI\\nixos\\initrd");
    let names: Vec<&str> = plan.sections.iter().map(|s| s.name.as_str()).collect();
    assert_eq!(names, vec![".osrel", ".cmdline", ".initrdp", ".kernelp"]);
    assert_eq!(plan.sections[0].offset, start);
    assert_eq!(plan.sections[1].offset, start + 7);
    assert_eq!(plan.sections[2].offset, start + 7 + 21);
    assert_eq!(plan.sections[3].offset, start + 7 + 21 + 17);
    assert_eq!(plan.sections[0].file_path, "/nix/store/os-release");
    assert_eq!(plan.sections[1].file_path, "/tmp/cmdline");
    assert_eq!(plan.sections[2].file_path, "/tmp/initrdp");
    assert_eq!(plan.sections[3].file_path, "/tmp/kernelp");
}

#[test]
fn wrap_initrd_plans_one_section() {
    let stub = build_pe(0x10000, &[(".text", vec![0xcc; 16], 0x400)]);
    let sections = wrap_initrd(&stub, "/nix/store/initrd").unwrap();
    assert_eq!(sections.len(), 1);
    assert_eq!(sections[0].name, ".initrd");
    assert_eq!(sections[0].file_path, "/nix/store/initrd");
    assert_eq!(sections[0].offset, 0x10000 + 0x400 + 16);
}

#[test]
fn stub_offset_rejects_pe_without_sections() {
    let pe = build_pe(0x1000, &[]);
    assert_eq!(stub_offset(&pe), Err(LayoutError::NoSections));
}

#[test]
fn stub_offset_rejects_pe_without_optional_header() {
    // A COFF-only image: size_of_optional_header is zero, one section.
    let mut pe = vec![0u8; 0x58 + 40];
    pe[0] = b'M';
    pe[1] = b'Z';
    pe[0x3c..0x40].copy_from_slice(&0x40u32.to_le_bytes());
    pe[0x40] = b'P';
    pe[0x41] = b'E';
    pe[0x44..0x46].copy_from_slice(&0x8664u16.to_le_bytes());
    pe[0x46..0x48].copy_from_slice(&1u16.to_le_bytes());
    pe[0x58..0x5d].copy_from_slice(b".text");
    assert_eq!(stub_offset(&pe), Err(LayoutError::NoOptionalHeader));
}
