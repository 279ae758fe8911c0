use bane::info::{Capabilities, Capability};
use bane::keys::{Key, Keys, Modifier, Value};

fn key(modifier: Modifier, value: Value) -> Key {
    Key { modifier, value }
}

fn plain(value: Value) -> Key {
    key(Modifier::empty(), value)
}

fn description() -> Capabilities {
    let mut info = Capabilities::new(Some(256), None);
    info.set(Capability::KeyUp, b"\x1BOA".to_vec());
    info.set(Capability::KeyDown, b"\x1BOB".to_vec());
    info.set(Capability::KeyF(1), b"\x1BOP".to_vec());
    info.set(Capability::KeyF(13), b"\x1B[25~".to_vec());
    info.set(Capability::KeyBackspace, b"\x08".to_vec());
    info
}

#[test]
fn default_bindings_decode() {
    let keys = Keys::new(&Capabilities::new(None, None));
    assert_eq!(keys.find(b"\x7F"), (&b""[..], Some(plain(Value::BackSpace))));
    assert_eq!(keys.find(b"\x1B\x7F"), (&b""[..], Some(key(Modifier::alt(), Value::BackSpace))));
    assert_eq!(keys.find(b"\x1B[Z"), (&b""[..], Some(key(Modifier::shift(), Value::Tab))));
    assert_eq!(keys.find(b"\x1B[3;5~"), (&b""[..], Some(key(Modifier::ctrl(), Value::Delete))));
    assert_eq!(keys.find(b"\x1B[15~"), (&b""[..], Some(plain(Value::F(5)))));
    assert_eq!(keys.find(b"\x1B[1;6P"), (&b""[..], Some(key(Modifier::logo(), Value::F(1)))));
}

#[test]
fn first_binding_of_a_sequence_wins() {
    let keys = Keys::new(&Capabilities::new(None, None));
    // Bound to Shift+F1 before it is listed as F13.
    assert_eq!(keys.find(b"\x1B[1;2P"), (&b""[..], Some(key(Modifier::shift(), Value::F(1)))));
    // Bound to Ctrl+F5 before it is listed as F29.
    assert_eq!(keys.find(b"\x1B[15;5~"), (&b""[..], Some(key(Modifier::ctrl(), Value::F(5)))));
}

#[test]
fn description_bindings_come_before_defaults() {
    let keys = Keys::new(&description());
    assert_eq!(keys.find(b"\x1BOA"), (&b""[..], Some(plain(Value::Up))));
    assert_eq!(keys.find(b"\x1B[25~"), (&b""[..], Some(plain(Value::F(13)))));
    assert_eq!(keys.find(b"\x08"), (&b""[..], Some(plain(Value::BackSpace))));
    // The description's F1 and the default F1 agree.
    assert_eq!(keys.find(b"\x1BOP"), (&b""[..], Some(plain(Value::F(1)))));
}

#[test]
fn longest_sequence_is_taken_first() {
    let keys = Keys::new(&Capabilities::new(None, None));
    assert_eq!(keys.find(b"\r\nx"), (&b"x"[..], Some(plain(Value::Enter))));
    assert_eq!(keys.find(b"\x1B\r\n"), (&b""[..], Some(key(Modifier::alt(), Value::Enter))));
    assert_eq!(keys.find(b"\r"), (&b""[..], Some(plain(Value::Enter))));
    // Without a binding for it, ESC O is Alt and a character that is not the last byte.
    assert_eq!(keys.find(b"\x1BOAB"), (&b"AB"[..], None));
}

#[test]
fn lone_escape() {
    let keys = Keys::new(&Capabilities::new(None, None));
    assert_eq!(keys.find(b"\x1B"), (&b""[..], Some(plain(Value::Escape))));
}

#[test]
fn control_characters() {
    let keys = Keys::new(&Capabilities::new(None, None));
    assert_eq!(keys.find(b"\x01"), (&b""[..], Some(key(Modifier::ctrl(), Value::Char('A')))));
    assert_eq!(keys.find(b"\x1B\x03"), (&b""[..], Some(key(Modifier::alt().union(Modifier::ctrl()), Value::Char('C')))));
    assert_eq!(keys.find(b"\x00z"), (&b"z"[..], Some(key(Modifier::ctrl(), Value::Char('@')))));
}

#[test]
fn high_bytes_without_the_character_bits_count_as_control() {
    let keys = Keys::new(&Capabilities::new(None, None));
    assert_eq!(keys.find(b"\x80"), (&b""[..], Some(key(Modifier::ctrl(), Value::Char('\u{c0}')))));
    assert_eq!(keys.find(b"\x9Bx"), (&b"x"[..], Some(key(Modifier::ctrl(), Value::Char('\u{db}')))));
}

#[test]
fn characters() {
    let keys = Keys::new(&Capabilities::new(None, None));
    assert_eq!(keys.find(b"a"), (&b""[..], Some(plain(Value::Char('a')))));
    assert_eq!(keys.find(b"\x1Bq"), (&b""[..], Some(key(Modifier::alt(), Value::Char('q')))));
    assert_eq!(keys.find("é".as_bytes()), (&b""[..], Some(plain(Value::Char('é')))));
    assert_eq!(keys.find("€".as_bytes()), (&b""[..], Some(plain(Value::Char('€')))));
    assert_eq!(keys.find("𝄞".as_bytes()), (&b""[..], Some(plain(Value::Char('𝄞')))));
}

#[test]
fn character_followed_by_more_input_is_skipped() {
    let keys = Keys::new(&Capabilities::new(None, None));
    assert_eq!(keys.find(b"ab"), (&b"b"[..], None));
    assert_eq!(keys.find("éx".as_bytes()), (&b"\xA9x"[..], None));
}

#[test]
fn invalid_bytes_are_skipped() {
    let keys = Keys::new(&Capabilities::new(None, None));
    assert_eq!(keys.find(b"\xA0"), (&b""[..], None));
    assert_eq!(keys.find(b"\xC3\x28"), (&b"("[..], None));
    assert_eq!(keys.find(b"\xFF"), (&b""[..], None));
}

#[test]
fn bind_then_find() {
    let mut keys = Keys::new(&Capabilities::new(None, None));
    let custom = key(Modifier::logo().union(Modifier::shift()), Value::Home);
    keys.bind(b"\x1B[99~".to_vec(), custom);
    assert_eq!(keys.find(b"\x1B[99~"), (&b""[..], Some(custom)));
    // A binding replaces the default one.
    keys.bind(b"\x7F".to_vec(), plain(Value::Delete));
    assert_eq!(keys.find(b"\x7F"), (&b""[..], Some(plain(Value::Delete))));
    // The empty sequence is never bound.
    keys.bind(Vec::new(), plain(Value::End));
    assert!(!keys.contains(b""));
    assert_eq!(keys.find(b"x"), (&b""[..], Some(plain(Value::Char('x')))));
}

#[test]
fn unbind_then_find() {
    let mut keys = Keys::new(&Capabilities::new(None, None));
    keys.unbind(b"\x1B\x7F");
    assert!(!keys.contains(b"\x1B\x7F"));
    // The sequence now decodes byte by byte: Alt, then the character.
    assert_eq!(keys.find(b"\x1B\x7F"), (&b""[..], Some(key(Modifier::alt(), Value::Char('\u{7f}')))));
    keys.unbind(b"\x7F");
    assert_eq!(keys.find(b"\x7F"), (&b""[..], Some(plain(Value::Char('\u{7f}')))));
    // Unbinding what is not bound changes nothing.
    keys.unbind(b"never bound");
    assert_eq!(keys.find(b"\r"), (&b""[..], Some(plain(Value::Enter))));
}

#[test]
fn empty_table_decodes_by_bytes() {
    let keys = Keys::empty();
    assert_eq!(keys.find(b"\x1B[A"), (&b"A"[..], None));
    assert_eq!(keys.find(b"\x7F"), (&b""[..], Some(plain(Value::Char('\u{7f}')))));
}

#[test]
fn decoding_always_consumes_input() {
    let keys = Keys::new(&description());
    let mut input: &[u8] = b"\x1BOA\x7Fab\x01\x1B[Z\r\n\x80";
    let mut count = 0;
    while !input.is_empty() {
        let (rest, _) = keys.find(input);
        assert!(rest.len() < input.len());
        input = rest;
        count += 1;
    }
    assert_eq!(count, 8);
}

#[test]
fn modifier_sets() {
    let mut m = Modifier::ctrl();
    m.insert(Modifier::shift());
    assert!(m.contains(Modifier::shift()));
    assert!(m.contains(Modifier::ctrl()));
    assert!(!m.contains(Modifier::alt()));
    assert_eq!(m.bits, 10);
    m.remove(Modifier::ctrl());
    assert!(!m.contains(Modifier::ctrl()));
    assert_eq!(m, Modifier::shift());
    assert_eq!(Modifier::alt().union(Modifier::logo()), Modifier::logo().union(Modifier::alt()));
    assert!(Modifier::empty().is_empty());
    assert!(Modifier::none().is_empty());
    assert_eq!(Modifier::default(), Modifier::empty());
    assert_eq!(Modifier::all().bits, 15);
    assert_eq!(Modifier::from_bits(5), Some(Modifier { bits: 5 }));
    assert_eq!(Modifier::from_bits(16), None);
    assert_eq!(Modifier::from_bits_truncate(0x3A).bits, 0x0A);
}

#[test]
fn decodable_keys() {
    let keys = Keys::new(&Capabilities::new(None, None));
    assert!(keys.decodes(b"a"));
    assert!(keys.decodes(b"\x1B"));
    assert!(keys.decodes(b"\x1B[Z"));
    assert!(keys.decodes("é".as_bytes()));
    assert!(keys.decodes(b"\xC3\x28"));
    assert!(!keys.decodes(b""));
    assert!(!keys.decodes(b"\xC3"));
    assert!(!keys.decodes(b"\x1B\xF0\x9D"));
}

#[test]
fn insert_if_absent_keeps_the_first_binding() {
    let mut keys = Keys::empty();
    keys.insert_if_absent(b"\x1B[9~".to_vec(), plain(Value::Insert));
    keys.insert_if_absent(b"\x1B[9~".to_vec(), plain(Value::Delete));
    assert_eq!(keys.find(b"\x1B[9~"), (&b""[..], Some(plain(Value::Insert))));
    assert!(keys.contains(b"\x1B[9~"));
    assert!(!keys.contains(b"\x1B[9"));
}

#[test]
fn empty_sequence_stays_unbound() {
    let mut keys = Keys::new(&description());
    assert!(!keys.contains(b""));
    keys.bind(Vec::new(), plain(Value::Home));
    assert!(!keys.contains(b""));
    keys.bind(b"\x1B[7~".to_vec(), plain(Value::Home));
    keys.unbind(b"\x1B[7~");
    keys.unbind(b"");
    assert!(!keys.contains(b""));
    // Every decoding of a table without the empty sequence consumes a byte.
    assert_eq!(keys.find(b"\x1B[7~"), (&b"7~"[..], None));
}
