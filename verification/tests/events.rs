use bane::info::Capabilities;
use bane::keys::{Key, Keys, Modifier, Value};
use bane::terminal::{deinit, init, Decoder, Event};

fn keys() -> Keys {
    Keys::new(&Capabilities::new(None, None))
}

fn plain(value: Value) -> Event {
    Event::Key(Key { modifier: Modifier::empty(), value })
}

#[test]
fn paste_comes_back_whole() {
    let keys = keys();
    let mut decoder = Decoder::new();
    let events = decoder.feed(&keys, b"\x1B[200~hello, world\x1B[201~");
    assert_eq!(events, vec![Event::Paste(b"hello, world".to_vec())]);
}

#[test]
fn paste_holds_escape_sequences_as_text() {
    let keys = keys();
    let mut decoder = Decoder::new();
    let events = decoder.feed(&keys, b"\x1B[200~\x1B[I\x7F\r\n\x1B[201~");
    assert_eq!(events, vec![Event::Paste(b"\x1B[I\x7F\r\n".to_vec())]);
}

#[test]
fn empty_paste() {
    let keys = keys();
    let mut decoder = Decoder::new();
    let events = decoder.feed(&keys, b"\x1B[200~\x1B[201~");
    assert_eq!(events, vec![Event::Paste(Vec::new())]);
}

#[test]
fn paste_across_chunks() {
    let keys = keys();
    let mut decoder = Decoder::new();
    assert_eq!(decoder.feed(&keys, b"\x1B[200~"), Vec::<Event>::new());
    let events = decoder.feed(&keys, b"pasted\x1B[201~");
    assert_eq!(events, vec![Event::Paste(b"pasted".to_vec())]);
    // The paste is closed: what follows decodes as keys again.
    assert_eq!(decoder.feed(&keys, b"\r"), vec![plain(Value::Enter)]);
}

#[test]
fn events_after_a_paste() {
    let keys = keys();
    let mut decoder = Decoder::new();
    let events = decoder.feed(&keys, b"\x1B[200~hi\x1B[201~\x1B[I\x7F");
    assert_eq!(
        events,
        vec![Event::Paste(b"hi".to_vec()), Event::Focus(true), plain(Value::BackSpace)]
    );
}

#[test]
fn focus_reports() {
    let keys = keys();
    let mut decoder = Decoder::new();
    assert_eq!(decoder.feed(&keys, b"\x1B[I"), vec![Event::Focus(true)]);
    assert_eq!(decoder.feed(&keys, b"\x1B[O"), vec![Event::Focus(false)]);
    assert_eq!(decoder.feed(&keys, b"\x1B[O\x1B[I"), vec![Event::Focus(false), Event::Focus(true)]);
}

#[test]
fn keys_in_a_row() {
    let keys = keys();
    let mut decoder = Decoder::new();
    let events = decoder.feed(&keys, b"\x1B[Z\x01\x1B\r\x1B[6;5~");
    assert_eq!(
        events,
        vec![
            Event::Key(Key { modifier: Modifier::shift(), value: Value::Tab }),
            Event::Key(Key { modifier: Modifier::ctrl(), value: Value::Char('A') }),
            Event::Key(Key { modifier: Modifier::alt(), value: Value::Enter }),
            Event::Key(Key { modifier: Modifier::ctrl(), value: Value::PageDown }),
        ]
    );
}

#[test]
fn undecodable_bytes_yield_no_event() {
    let keys = keys();
    let mut decoder = Decoder::new();
    // A character that is not the last byte, and a stray continuation byte.
    let events = decoder.feed(&keys, b"ab\xA0z");
    assert_eq!(events, vec![plain(Value::Char('z'))]);
}

#[test]
fn empty_input_yields_nothing() {
    let keys = keys();
    let mut decoder = Decoder::new();
    assert_eq!(decoder.feed(&keys, b""), Vec::<Event>::new());
}

#[test]
fn custom_binding_is_decoded() {
    let mut keys = keys();
    let key = Key { modifier: Modifier::alt(), value: Value::F(40) };
    keys.bind(b"\x1B[40~".to_vec(), key);
    let mut decoder = Decoder::new();
    assert_eq!(decoder.feed(&keys, b"\x1B[40~"), vec![Event::Key(key)]);
}

#[test]
fn init_sequence() {
    assert_eq!(init(), b"\x1B[?1h\x1B=\x1B[?2004;1004;1006h".to_vec());
}

#[test]
fn deinit_sequence() {
    assert_eq!(deinit(), b"\x1B[?1l\x1B>\x1B[?2004;1004;1006l".to_vec());
}

#[test]
fn decodable_input() {
    let keys = keys();
    let decoder = Decoder::new();
    assert!(decoder.decodes(&keys, b""));
    assert!(decoder.decodes(&keys, b"abc\x1B[I\x1B[200~x\x1B[201~"));
    assert!(decoder.decodes(&keys, b"\x1B[200~"));
    // A paste with no end to it.
    assert!(!decoder.decodes(&keys, b"\x1B[200~abc"));
    // A character whose encoding is cut off.
    assert!(!decoder.decodes(&keys, b"x\xC3"));
    assert!(!decoder.decodes(&keys, b"\x1B\xE2\x82"));
}

#[test]
fn decodable_input_inside_a_paste() {
    let keys = keys();
    let mut decoder = Decoder::new();
    assert_eq!(decoder.feed(&keys, b"\x1B[200~"), Vec::<Event>::new());
    assert!(decoder.decodes(&keys, b"more\x1B[201~"));
    assert!(!decoder.decodes(&keys, b"more"));
    assert!(decoder.decodes(&keys, b""));
}

#[test]
fn key_bound_to_nothing_never_decodes() {
    let mut info = Capabilities::new(None, None);
    info.set(bane::info::Capability::KeyUp, Vec::new());
    let keys = Keys::new(&info);
    let decoder = Decoder::new();
    assert!(!decoder.decodes(&keys, b"x"));
    assert!(decoder.decodes(&keys, b"\x1B[I"));
    assert_eq!(keys.find(b"x"), (&b"x"[..], Some(Key { modifier: Modifier::empty(), value: Value::Up })));
}
