use bane::features::{Features, Mode};
use bane::info::{Capabilities, Capability};
use bane::resize::{register, unregister, Handler, Subscribers};
use bane::size::Size;
use bane::terminal;
use bane::TermError;

fn cooked() -> Mode {
    Mode {
        echo: true,
        canonical: true,
        signals: true,
        extended: true,
        input_flow: false,
        output_flow: true,
        min: 1,
        time: 0,
    }
}

#[test]
fn colors_from_the_description() {
    let info = Capabilities::new(Some(256), None);
    assert_eq!(Features::new(&info, cooked()).colors(), Some(256));
    let info = Capabilities::new(Some(8), Some(true));
    assert_eq!(Features::new(&info, cooked()).colors(), None);
    // The flag counts wherever the description reports it.
    let info = Capabilities::new(Some(8), Some(false));
    assert_eq!(Features::new(&info, cooked()).colors(), None);
    let info = Capabilities::new(None, None);
    assert_eq!(Features::new(&info, cooked()).colors(), Some(1));
}

#[test]
fn echo_mode() {
    let info = Capabilities::new(None, None);
    let mut features = Features::new(&info, cooked());
    features.echo(false);
    assert_eq!(features.state, Mode { echo: false, ..cooked() });
    features.echo(true);
    assert_eq!(features.state, cooked());
}

#[test]
fn raw_mode() {
    let info = Capabilities::new(None, None);
    let mut features = Features::new(&info, Mode { min: 4, time: 9, ..cooked() });
    features.raw(true);
    assert_eq!(
        features.state,
        Mode {
            echo: true,
            canonical: false,
            signals: false,
            extended: false,
            input_flow: false,
            output_flow: false,
            min: 1,
            time: 0,
        }
    );
    features.raw(false);
    assert_eq!(
        features.state,
        Mode {
            echo: true,
            canonical: true,
            signals: true,
            extended: true,
            input_flow: true,
            output_flow: true,
            min: 1,
            time: 0,
        }
    );
}

#[test]
fn echo_and_raw_are_independent() {
    let info = Capabilities::new(None, None);
    let mut first = Features::new(&info, cooked());
    first.echo(false);
    first.raw(true);
    let mut second = Features::new(&info, cooked());
    second.raw(true);
    second.echo(false);
    assert_eq!(first.state, second.state);
    assert!(!first.state.echo);
}

#[test]
fn size_accessors() {
    let size = Size { columns: 80, rows: 24, width: 800, height: 480 };
    assert_eq!(size.columns(), 80);
    assert_eq!(size.rows(), 24);
    assert_eq!(size.width(), 800);
    assert_eq!(size.height(), 480);
}

#[test]
fn cell_size() {
    assert_eq!(Size { columns: 80, rows: 24, width: 800, height: 480 }.cell(), (10, 20));
    assert_eq!(Size { columns: 80, rows: 24, width: 0, height: 480 }.cell(), (0, 0));
    assert_eq!(Size { columns: 80, rows: 24, width: 640, height: 0 }.cell(), (0, 0));
    assert_eq!(Size { columns: 0, rows: 0, width: 0, height: 0 }.cell(), (0, 0));
}

#[test]
fn cells_fit_the_terminal() {
    let size = Size { columns: 7, rows: 3, width: 100, height: 50 };
    let (w, h) = size.cell();
    assert_eq!((w, h), (14, 16));
    assert!(w * size.columns <= size.width && size.width < (w + 1) * size.columns);
    assert!(h * size.rows <= size.height && size.height < (h + 1) * size.rows);
}

#[test]
fn register_and_unregister() {
    let mut subscribers: Subscribers<&str> = Subscribers::new();
    assert!(subscribers.is_empty());
    let (first, install) = register(&mut subscribers, "a");
    assert_eq!(first, Handler(1));
    assert!(install);
    let (second, install) = register(&mut subscribers, "b");
    assert_eq!(second, Handler(2));
    assert!(!install);
    unregister(&mut subscribers, first);
    assert_eq!(subscribers.subscribers().len(), 1);
    assert_eq!(subscribers.subscribers().get(&2), Some(&"b"));
    unregister(&mut subscribers, second);
    assert!(subscribers.is_empty());
    // Numbers are not given out again.
    let (third, install) = register(&mut subscribers, "c");
    assert_eq!(third, Handler(3));
    assert!(install);
}

#[test]
fn unregister_right_after_register_restores() {
    let mut subscribers: Subscribers<u8> = Subscribers::new();
    register(&mut subscribers, 10);
    let before: Vec<(u32, u8)> = subscribers.subscribers().iter().map(|(k, v)| (*k, *v)).collect();
    let (handler, _) = register(&mut subscribers, 20);
    unregister(&mut subscribers, handler);
    let after: Vec<(u32, u8)> = subscribers.subscribers().iter().map(|(k, v)| (*k, *v)).collect();
    assert_eq!(before, after);
}

#[test]
fn unregister_unknown_handler() {
    let mut subscribers: Subscribers<u8> = Subscribers::new();
    register(&mut subscribers, 1);
    unregister(&mut subscribers, Handler(42));
    assert_eq!(subscribers.subscribers().len(), 1);
}

#[test]
fn bare_number_registration() {
    let mut subscribers: Subscribers<u8> = Subscribers::new();
    assert_eq!(terminal::resize::register(&mut subscribers, 5), (1, true));
    assert_eq!(terminal::resize::register(&mut subscribers, 6), (2, false));
    terminal::resize::unregister(&mut subscribers, 1);
    assert_eq!(subscribers.subscribers().len(), 1);
}

fn xterm() -> Capabilities {
    let mut info = Capabilities::new(Some(8), None);
    info.set(Capability::CursorInvisible, b"\x1B[?25l".to_vec());
    info.set(Capability::CursorNormal, b"\x1B[?25h".to_vec());
    info.set(Capability::ColumnAddress, b"\x1B[%i%p1%dG".to_vec());
    info.set(Capability::RowAddress, b"\x1B[%i%p1%dd".to_vec());
    info.set(Capability::ParmUpCursor, b"\x1B[%p1%dA".to_vec());
    info.set(Capability::ClrBol, b"\x1B[1K".to_vec());
    info.set(Capability::ClrEos, b"\x1B[J".to_vec());
    info.set(Capability::EnterBoldMode, b"\x1B[1m".to_vec());
    info.set(Capability::SetForeground, b"\x1B[3%p1%dm".to_vec());
    info
}

#[test]
fn plain_cursor() {
    let info = xterm();
    let mut cursor = terminal::cursor::Cursor::new(&info);
    assert_eq!(cursor.invisible(), Ok(()));
    assert_eq!(cursor.visible(), Ok(()));
    assert_eq!(cursor.travel(terminal::cursor::Travel::Up(2)), Ok(()));
    // Without cursor_address the column is set before the row.
    assert_eq!(cursor.travel(terminal::cursor::Travel::To(Some(4), Some(1))), Ok(()));
    assert_eq!(cursor.output, b"\x1B[?25l\x1B[?25h\x1B[2A\x1B[5G\x1B[2d".to_vec());
}

#[test]
fn plain_erase() {
    let info = xterm();
    let mut erase = terminal::erase::Erase::new(&info);
    assert_eq!(erase.line(terminal::erase::To::Start), Ok(()));
    assert_eq!(erase.line(terminal::erase::To::End), Err(TermError::NotSupported));
    assert_eq!(erase.screen(terminal::erase::To::End), Ok(()));
    assert_eq!(erase.screen(terminal::erase::To::Start), Err(TermError::NotSupported));
    assert_eq!(erase.output, b"\x1B[1K\x1B[J".to_vec());
}

#[test]
fn plain_text() {
    let info = xterm();
    let mut text = terminal::text::Text::new(&info);
    assert_eq!(text.bold(true), Ok(()));
    assert_eq!(text.bold(false), Err(TermError::NotSupported));
    assert_eq!(text.dim(true), Err(TermError::NotSupported));
    assert_eq!(text.foreground(terminal::text::Color::Index(2)), Ok(()));
    assert_eq!(text.foreground(terminal::text::Color::Index(12)), Err(TermError::NotSupported));
    assert_eq!(text.background(terminal::text::Color::Rgb(1, 2, 3)), Ok(()));
    assert_eq!(text.write("ok"), Ok(()));
    assert_eq!(text.output, b"\x1B[1m\x1B[32m\x1B[48;2;1;2;3mok".to_vec());
}
