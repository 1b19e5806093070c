use lanzaboote::policy::{StubParameters, TrivialPolicy};

fn params(cmdline: &[&str]) -> StubParameters {
    StubParameters {
        lanzaboote_store_path: "/nix/store/aaa-lanzaboote-stub".to_string(),
        kernel_store_path: "/nix/store/bbb-linux".to_string(),
        initrd_store_path: "/nix/store/ccc-initrd".to_string(),
        kernel_cmdline: cmdline.iter().map(|s| s.to_string()).collect(),
        os_release_contents: b"NAME=NixOS\n".to_vec(),
    }
}

fn allow(items: &[&str]) -> TrivialPolicy {
    TrivialPolicy {
        allowed_kernel_cmdline_items: Some(items.iter().map(|s| s.to_string()).collect()),
    }
}

#[test]
fn trusted_when_paths_trusted_and_no_allow_list() {
    let policy = TrivialPolicy { allowed_kernel_cmdline_items: None };
    let p = params(&["anything", "goes"]);
    assert!(policy.trusted_stub_parameters(&p, true, true, true));
}

#[test]
fn rejected_when_any_store_path_is_untrusted() {
    let policy = allow(&["quiet"]);
    let p = params(&["quiet"]);
    assert!(!policy.trusted_stub_parameters(&p, false, true, true));
    assert!(!policy.trusted_stub_parameters(&p, true, false, true));
    assert!(!policy.trusted_stub_parameters(&p, true, true, false));
    assert!(policy.trusted_stub_parameters(&p, true, true, true));
}

#[test]
fn rejected_on_the_first_unlisted_token() {
    let policy = allow(&["quiet", "splash"]);
    let p = params(&["quiet", "root=/dev/sda1"]);
    assert!(!policy.trusted_stub_parameters(&p, true, true, true));
}

#[test]
fn an_empty_allow_list_rejects_every_nonempty_command_line() {
    let policy = allow(&[]);
    assert!(!policy.trusted_stub_parameters(&params(&["quiet"]), true, true, true));
    assert!(policy.trusted_stub_parameters(&params(&[]), true, true, true));
}
