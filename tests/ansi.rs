use b2::ansi::{ANSIConsole, AnsiDecoder};
use b2::console::ConsoleStyle;
use b2::key::{AcceleratorKey, Key};

fn decode(bytes: &[u8]) -> Vec<Key> {
    let mut d = AnsiDecoder::new();
    let mut keys = Vec::new();
    for b in bytes {
        keys.extend(d.feed(*b));
    }
    keys
}

fn acc(a: AcceleratorKey) -> Key {
    Key::Accelerator(a)
}

#[test]
fn plain_bytes_decode_to_keys() {
    assert_eq!(
        decode(b"a1\r\t\x7f"),
        vec![
            Key::Printable('a'),
            Key::Printable('1'),
            acc(AcceleratorKey::Enter),
            acc(AcceleratorKey::Tab),
            acc(AcceleratorKey::Backspace),
        ]
    );
    assert_eq!(decode(&[0x01]), vec![Key::Unknown(0x01)]);
    assert_eq!(decode(&[0xc3]), vec![Key::Unknown(0xc3)]);
}

#[test]
fn arrow_and_editing_sequences() {
    assert_eq!(
        decode(b"\x1b[A\x1b[B\x1b[C\x1b[D\x1b[H\x1b[F"),
        vec![
            acc(AcceleratorKey::Up),
            acc(AcceleratorKey::Down),
            acc(AcceleratorKey::Right),
            acc(AcceleratorKey::Left),
            acc(AcceleratorKey::Home),
            acc(AcceleratorKey::End),
        ]
    );
    assert_eq!(
        decode(b"\x1b[2~\x1b[3~\x1b[5~\x1b[6~\x1b[1~\x1b[4~"),
        vec![
            acc(AcceleratorKey::Insert),
            acc(AcceleratorKey::Delete),
            acc(AcceleratorKey::PgUp),
            acc(AcceleratorKey::PgDn),
            acc(AcceleratorKey::Home),
            acc(AcceleratorKey::End),
        ]
    );
}

#[test]
fn function_key_sequences() {
    assert_eq!(
        decode(b"\x1bOP\x1bOS\x1b[15~\x1b[17~\x1b[24~"),
        vec![
            acc(AcceleratorKey::F(1)),
            acc(AcceleratorKey::F(4)),
            acc(AcceleratorKey::F(5)),
            acc(AcceleratorKey::F(6)),
            acc(AcceleratorKey::F(12)),
        ]
    );
}

#[test]
fn unknown_sequences_keep_their_code() {
    assert_eq!(decode(b"\x1b[99~"), vec![Key::Unknown(99)]);
    assert_eq!(decode(b"\x1b[12345~"), vec![Key::Unknown(99)]);
    assert_eq!(decode(b"\x1b[Z"), vec![Key::Unknown(0x5a)]);
}

#[test]
fn lone_escape() {
    assert_eq!(decode(b"\x1bx"), vec![acc(AcceleratorKey::Esc), Key::Printable('x')]);
    let mut d = AnsiDecoder::new();
    assert!(d.feed(0x1b).is_empty());
    assert_eq!(d.flush(), Some(acc(AcceleratorKey::Esc)));
    assert_eq!(d.feed(b'q'), vec![Key::Printable('q')]);
    assert_eq!(d.flush(), None);
}

#[test]
fn style_and_cursor_sequences() {
    let plain = ConsoleStyle { bold: false, reverse: false, blink: false };
    assert_eq!(ANSIConsole::apply_style("hi", plain), "hi");
    let bold_rev = ConsoleStyle { bold: true, reverse: true, blink: false };
    assert_eq!(ANSIConsole::apply_style("hi", bold_rev), "\x1b[1;7mhi\x1b[0m");
    let blink = ConsoleStyle { bold: false, reverse: false, blink: true };
    assert_eq!(ANSIConsole::apply_style("x", blink), "\x1b[5mx\x1b[0m");
    assert_eq!(ANSIConsole::set_pos(0, 0), "\x1b[1;1H");
    assert_eq!(ANSIConsole::set_pos(9, 24), "\x1b[25;10H");
    assert_eq!(ANSIConsole::reset(), "\x1bc");
    assert_eq!(ANSIConsole::set_pos(i32::MAX, i32::MAX), "\x1b[2147483648;2147483648H");
}
