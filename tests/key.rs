use b2::key::{AcceleratorKey, EfiKey, Key};

#[test]
fn control_characters_become_accelerators() {
    assert_eq!(Key::from_efi(EfiKey::Printable('\r')), Key::Accelerator(AcceleratorKey::Enter));
    assert_eq!(Key::from_efi(EfiKey::Printable('\t')), Key::Accelerator(AcceleratorKey::Tab));
    assert_eq!(
        Key::from_efi(EfiKey::Printable('\x08')),
        Key::Accelerator(AcceleratorKey::Backspace)
    );
}

#[test]
fn other_characters_are_printable() {
    assert_eq!(Key::from_efi(EfiKey::Printable('a')), Key::Printable('a'));
    assert_eq!(Key::from_efi(EfiKey::Printable('é')), Key::Printable('é'));
}

#[test]
fn scan_codes_decode_to_accelerators() {
    assert_eq!(Key::from_efi(EfiKey::Special(0x01)), Key::Accelerator(AcceleratorKey::Up));
    assert_eq!(Key::from_efi(EfiKey::Special(0x02)), Key::Accelerator(AcceleratorKey::Down));
    assert_eq!(Key::from_efi(EfiKey::Special(0x03)), Key::Accelerator(AcceleratorKey::Right));
    assert_eq!(Key::from_efi(EfiKey::Special(0x04)), Key::Accelerator(AcceleratorKey::Left));
    assert_eq!(Key::from_efi(EfiKey::Special(0x05)), Key::Accelerator(AcceleratorKey::Home));
    assert_eq!(Key::from_efi(EfiKey::Special(0x06)), Key::Accelerator(AcceleratorKey::End));
    assert_eq!(Key::from_efi(EfiKey::Special(0x07)), Key::Accelerator(AcceleratorKey::Insert));
    assert_eq!(Key::from_efi(EfiKey::Special(0x08)), Key::Accelerator(AcceleratorKey::Delete));
    assert_eq!(Key::from_efi(EfiKey::Special(0x09)), Key::Accelerator(AcceleratorKey::PgUp));
    assert_eq!(Key::from_efi(EfiKey::Special(0x0A)), Key::Accelerator(AcceleratorKey::PgDn));
    assert_eq!(Key::from_efi(EfiKey::Special(0x17)), Key::Accelerator(AcceleratorKey::Esc));
}

#[test]
fn function_key_scan_codes_stay_unknown() {
    assert_eq!(Key::from_efi(EfiKey::Special(0x0B)), Key::Unknown(0x0B));
    assert_eq!(Key::from_efi(EfiKey::Special(0x10)), Key::Unknown(0x10));
    assert_eq!(Key::from_efi(EfiKey::Special(0x16)), Key::Unknown(0x16));
}

#[test]
fn unmapped_scan_codes_keep_their_code() {
    assert_eq!(Key::from_efi(EfiKey::Special(0x00)), Key::Unknown(0x00));
    assert_eq!(Key::from_efi(EfiKey::Special(0x68)), Key::Unknown(0x68));
    assert_eq!(Key::from_efi(EfiKey::Special(0x102)), Key::Unknown(0x102));
}
