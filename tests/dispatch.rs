use b2::config::{BootTarget, ImageLocation};
use b2::dispatch::{boot, Dispatch, EFIBoot, Platform, ResetKind};
use b2::error::{B2Error, EfiError};

#[test]
fn exit_terminates_the_menu() {
    let d = boot(&BootTarget::Exit);
    assert!(matches!(d, Dispatch::Done(Ok(true))));
    assert_eq!(Platform::finish(d, Ok(())), Ok(true));
}

#[test]
fn nop_continues_the_menu() {
    let d = boot(&BootTarget::Nop);
    assert!(matches!(d, Dispatch::Done(Ok(false))));
    assert_eq!(Platform::finish(d, Ok(())), Ok(false));
}

#[test]
fn message_is_shown_and_menu_continues() {
    let d = boot(&BootTarget::Message(String::from("hi")));
    assert!(matches!(&d, Dispatch::Show(m) if m == "hi"));
    assert_eq!(Platform::finish(d, Ok(())), Ok(false));
}

#[test]
fn failed_display_is_reported() {
    let d = boot(&BootTarget::Debug);
    assert!(matches!(d, Dispatch::ShowMemoryMap));
    assert_eq!(
        Platform::finish(d, Err(EfiError::BootError(2))),
        Err(B2Error::PlatformError(EfiError::BootError(2)))
    );
}

#[test]
fn linux_target_is_unavailable() {
    let d = boot(&BootTarget::Linux {
        kernel: ImageLocation::Path(String::from("/vmlinuz")),
        initrd: vec![],
        cmdline: String::new(),
    });
    assert!(matches!(d, Dispatch::Done(Err(B2Error::Unavailable))));
}

#[test]
fn unknown_target_is_never_executed() {
    let d = boot(&BootTarget::Unknown);
    assert!(matches!(d, Dispatch::Unsupported));
    assert_eq!(Platform::finish(d, Ok(())), Ok(false));
}

#[test]
fn resets_and_halt() {
    assert!(matches!(boot(&BootTarget::Reboot), Dispatch::Reset(ResetKind::Cold)));
    assert!(matches!(boot(&BootTarget::Poweroff), Dispatch::Reset(ResetKind::Shutdown)));
    assert!(matches!(boot(&BootTarget::FirmwareSetup), Dispatch::RebootToFirmwareSetup));
    assert!(matches!(boot(&BootTarget::Panic), Dispatch::Halt));
}

#[test]
fn reset_that_returns_is_an_error() {
    let r = Platform::finish(Dispatch::Reset(ResetKind::Shutdown), Ok(()));
    assert_eq!(r, Err(B2Error::PlatformError(EfiError::ResetReturned)));
}

#[test]
fn efi_target_chain_loads_image() {
    let d = boot(&BootTarget::EFI {
        path: String::from("\\linux\\vmlinuz"),
        cmdline: Some(String::from("initrd=\\linux\\initrd.gz")),
    });
    match &d {
        Dispatch::ChainLoad(b) => {
            assert_eq!(b.path, "\\linux\\vmlinuz");
            assert_eq!(b.load_options(), "initrd=\\linux\\initrd.gz");
        }
        other => panic!("unexpected {:?}", other),
    }
    assert_eq!(
        Platform::finish(d, Ok(())),
        Err(B2Error::PlatformError(EfiError::BootReturned))
    );
}

#[test]
fn failed_image_load_is_reported() {
    let d = boot(&BootTarget::EFI { path: String::from("x.efi"), cmdline: None });
    assert_eq!(
        Platform::finish(d, Err(EfiError::BootError(14))),
        Err(B2Error::PlatformError(EfiError::BootError(14)))
    );
}

#[test]
fn device_path_texts_are_joined_with_slash() {
    let p = EFIBoot::full_path("PciRoot(0x0)/Pci(0x1,0x1)/HD(1,GPT)", "\\EFI\\boot.efi");
    assert_eq!(p, "PciRoot(0x0)/Pci(0x1,0x1)/HD(1,GPT)/\\EFI\\boot.efi");
}

#[test]
fn load_options_default_to_empty() {
    assert_eq!(EFIBoot::from_path("a.efi").load_options(), "");
    let b = EFIBoot::create("a.efi", Some("quiet"));
    assert_eq!(b.path, "a.efi");
    assert_eq!(b.load_options(), "quiet");
}

#[test]
fn firmware_setup_needs_the_low_bit() {
    let r = Platform::firmware_setup_request(Ok(vec![1, 0, 0, 0, 0, 0, 0, 0]));
    assert_eq!(r, Ok(vec![1, 0, 0, 0, 0, 0, 0, 0]));
    let r = Platform::firmware_setup_request(Ok(vec![0x41, 0, 0, 0, 0, 0, 0, 0]));
    assert_eq!(r, Ok(vec![1, 0, 0, 0, 0, 0, 0, 0]));
    let r = Platform::firmware_setup_request(Ok(vec![2, 0, 0, 0, 0, 0, 0, 0]));
    assert_eq!(r, Err(B2Error::FirmwareSetupUnsupported));
    let r = Platform::firmware_setup_request(Ok(vec![]));
    assert_eq!(r, Err(B2Error::FirmwareSetupUnsupported));
}

#[test]
fn unreadable_indications_are_reported() {
    let e = EfiError::GetEfiVariable(14, String::from("OsIndicationsSupported"));
    let r = Platform::firmware_setup_request(Err(e.clone()));
    assert_eq!(r, Err(B2Error::PlatformError(e)));
}
