use b2::console::{EchoMode, ReadAction, SecretReader};
use b2::key::{AcceleratorKey, Key};

#[test]
fn masked_entry_echoes_stars() {
    let mut r = SecretReader::new(EchoMode::Mask);
    assert_eq!(r.feed(Key::Printable('p')), ReadAction::Echo('*'));
    assert_eq!(r.feed(Key::Accelerator(AcceleratorKey::Left)), ReadAction::Nothing);
    assert_eq!(r.feed(Key::Printable('w')), ReadAction::Echo('*'));
    assert_eq!(r.feed(Key::Accelerator(AcceleratorKey::Enter)), ReadAction::Finished(2));
    assert_eq!(r.text(), "pw");
}

#[test]
fn silent_entry_shows_nothing() {
    let mut r = SecretReader::new(EchoMode::Silent);
    assert_eq!(r.feed(Key::Printable('s')), ReadAction::Nothing);
    assert_eq!(r.feed(Key::Unknown(3)), ReadAction::Nothing);
    assert_eq!(r.feed(Key::Accelerator(AcceleratorKey::Enter)), ReadAction::Finished(1));
    assert_eq!(r.text(), "s");
}
