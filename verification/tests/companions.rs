use lanzaboote::boot::combined_initrd;
use lanzaboote::companion::{has_suffix, pack_cpio, CompanionInitrd, CompanionKind, VolumeFile};

fn file(name: &str, data: &[u8]) -> VolumeFile {
    VolumeFile { name: name.to_string(), data: data.to_vec() }
}

/// One newc member, composed independently of the library: the 110-byte
/// ASCII header, the name with its terminating zero, zero padding to four
/// bytes, the data, padding again.
fn newc_entry(name: &str, mode: u32, data: &[u8]) -> Vec<u8> {
    let mut v = Vec::new();
    v.extend_from_slice(b"070701");
    let fields: [u32; 13] = [
        0,
        mode,
        0,
        0,
        1,
        0,
        data.len() as u32,
        0,
        0,
        0,
        0,
        name.len() as u32 + 1,
        0,
    ];
    for f in fields {
        v.extend_from_slice(format!("{:08X}", f).as_bytes());
    }
    v.extend_from_slice(name.as_bytes());
    v.push(0);
    while v.len() % 4 != 0 {
        v.push(0);
    }
    v.extend_from_slice(data);
    while v.len() % 4 != 0 {
        v.push(0);
    }
    v
}

#[test]
fn suffix_matching() {
    assert!(has_suffix("foo.cred", ".cred"));
    assert!(!has_suffix("foo.credx", ".cred"));
    assert!(!has_suffix("ed", ".cred"));
    assert!(has_suffix(".cred", ".cred"));
}

#[test]
fn packing_nothing_is_not_an_error() {
    let files = vec![file("readme.txt", b"hello")];
    let r = pack_cpio(&CompanionKind::Credentials, &files).unwrap();
    assert!(r.is_none());
}

#[test]
fn packing_an_empty_directory_is_not_an_error() {
    let files: Vec<VolumeFile> = Vec::new();
    let r = pack_cpio(&CompanionKind::SystemExtension, &files).unwrap();
    assert!(r.is_none());
}

#[test]
fn packed_archive_is_newc_with_directory_files_and_trailer() {
    let files = vec![file("a.cred", b"hi"), file("skip.txt", b"no"), file("b.cred", b"there")];
    let packed = pack_cpio(&CompanionKind::Credentials, &files).unwrap().unwrap();
    let mut expected = newc_entry(".extra/credentials", 0o040500, &[]);
    expected.extend(newc_entry(".extra/credentials/a.cred", 0o100400, b"hi"));
    expected.extend(newc_entry(".extra/credentials/b.cred", 0o100400, b"there"));
    expected.extend(newc_entry("TRAILER!!!", 0, &[]));
    match &packed {
        CompanionInitrd::Credentials(bytes) => assert_eq!(bytes, &expected),
        _ => panic!("wrong companion kind"),
    }
}

#[test]
fn system_extensions_match_raw_suffix() {
    let files = vec![file("docker.raw", b"sysext"), file("a.cred", b"x")];
    let packed = pack_cpio(&CompanionKind::SystemExtension, &files).unwrap().unwrap();
    let mut expected = newc_entry(".extra/sysext", 0o040500, &[]);
    expected.extend(newc_entry(".extra/sysext/docker.raw", 0o100400, b"sysext"));
    expected.extend(newc_entry("TRAILER!!!", 0, &[]));
    match &packed {
        CompanionInitrd::SystemExtension(bytes) => assert_eq!(bytes, &expected),
        _ => panic!("wrong companion kind"),
    }
}

#[test]
fn companion_kind_table() {
    let c = CompanionKind::Credentials;
    let g = CompanionKind::GlobalCredentials;
    let s = CompanionKind::SystemExtension;
    assert_eq!(c.suffix(), ".cred");
    assert_eq!(g.suffix(), ".cred");
    assert_eq!(s.suffix(), ".raw");
    assert_eq!(c.discovery_directory(), ".extra/credentials");
    assert_eq!(g.discovery_directory(), "\\loader\\credentials");
    assert_eq!(s.discovery_directory(), ".extra/sysext");
    assert_eq!(g.archive_directory(), ".extra/global_credentials");
    assert_eq!(c.dir_perm(), 0o500);
    assert_eq!(c.file_perm(), 0o400);
}

#[test]
fn combined_initrd_appends_companions_in_order() {
    let initrd = b"INITRD".to_vec();
    let companions = vec![
        CompanionInitrd::Credentials(b"AAA".to_vec()),
        CompanionInitrd::SystemExtension(b"BB".to_vec()),
    ];
    let combined = combined_initrd(initrd, &companions);
    assert_eq!(combined, b"INITRDAAABB");
}

#[test]
fn combined_initrd_without_companions_is_the_initrd_alone() {
    let initrd = b"INITRD".to_vec();
    let companions: Vec<CompanionInitrd> = Vec::new();
    let combined = combined_initrd(initrd, &companions);
    assert_eq!(combined, b"INITRD");
}
