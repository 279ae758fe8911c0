use bane::cursor::{Cursor, Travel};
use bane::erase::{Erase, To};
use bane::info::{Capabilities, Capability};
use bane::raw::cursor::{conceal, show};
use bane::screen::Screen;
use bane::template::tame_template;
use bane::text::{Color, Text, Weight};
use bane::TermError;

const SETAF: &[u8] = b"\x1B[%?%p1%{8}%<%t3%p1%d%e%p1%{16}%<%t9%p1%{8}%-%d%e38;5;%p1%d%;m";
const SETAB: &[u8] = b"\x1B[%?%p1%{8}%<%t4%p1%d%e%p1%{16}%<%t10%p1%{8}%-%d%e48;5;%p1%d%;m";

fn xterm() -> Capabilities {
    let mut info = Capabilities::new(Some(256), None);
    info.set(Capability::CursorInvisible, b"\x1B[?25l".to_vec());
    info.set(Capability::CursorNormal, b"\x1B[?12l\x1B[?25h".to_vec());
    info.set(Capability::CursorVisible, b"\x1B[?12;25h".to_vec());
    info.set(Capability::CursorUp, b"\x1B[A".to_vec());
    info.set(Capability::CursorDown, b"\n".to_vec());
    info.set(Capability::CursorLeft, b"\x08".to_vec());
    info.set(Capability::CursorRight, b"\x1B[C".to_vec());
    info.set(Capability::ParmUpCursor, b"\x1B[%p1%dA".to_vec());
    info.set(Capability::ParmDownCursor, b"\x1B[%p1%dB".to_vec());
    info.set(Capability::ParmLeftCursor, b"\x1B[%p1%dD".to_vec());
    info.set(Capability::ParmRightCursor, b"\x1B[%p1%dC".to_vec());
    info.set(Capability::CursorAddress, b"\x1B[%i%p1%d;%p2%dH".to_vec());
    info.set(Capability::RowAddress, b"\x1B[%i%p1%dd".to_vec());
    info.set(Capability::ColumnAddress, b"\x1B[%i%p1%dG".to_vec());
    info.set(Capability::ClrBol, b"\x1B[1K".to_vec());
    info.set(Capability::ClrEol, b"\x1B[K".to_vec());
    info.set(Capability::ClrEos, b"\x1B[J".to_vec());
    info.set(Capability::ClearScreen, b"\x1B[H\x1B[2J".to_vec());
    info.set(Capability::ExitAttributeMode, b"\x1B(B\x1B[m".to_vec());
    info.set(Capability::EnterBoldMode, b"\x1B[1m".to_vec());
    info.set(Capability::EnterReverseMode, b"\x1B[7m".to_vec());
    info.set(Capability::EnterItalicsMode, b"\x1B[3m".to_vec());
    info.set(Capability::ExitItalicsMode, b"\x1B[23m".to_vec());
    info.set(Capability::EnterUnderlineMode, b"\x1B[4m".to_vec());
    info.set(Capability::ExitUnderlineMode, b"\x1B[24m".to_vec());
    info.set(Capability::EnterAltCharsetMode, b"\x1B(0".to_vec());
    info.set(Capability::ExitAltCharsetMode, b"\x1B(B".to_vec());
    info.set(Capability::SetAForeground, SETAF.to_vec());
    info.set(Capability::SetABackground, SETAB.to_vec());
    info
}

fn bare(max_colors: Option<i16>) -> Capabilities {
    Capabilities::new(max_colors, None)
}

#[test]
fn capabilities_last_setting_counts() {
    let mut info = bare(None);
    assert!(info.get(Capability::ClrEol).is_none());
    info.set(Capability::ClrEol, b"first".to_vec());
    info.set(Capability::ClrBol, b"other".to_vec());
    info.set(Capability::ClrEol, b"second".to_vec());
    assert_eq!(info.get(Capability::ClrEol), Some(&b"second".to_vec()));
    assert_eq!(info.get(Capability::ClrBol), Some(&b"other".to_vec()));
    assert!(info.get(Capability::KeyF(2)).is_none());
}

#[test]
fn cursor_visibility() {
    let info = xterm();
    let mut cursor = Cursor::new(&info);
    assert_eq!(cursor.invisible(), Ok(()));
    assert_eq!(cursor.normal(), Ok(()));
    assert_eq!(cursor.visible(), Ok(()));
    assert_eq!(cursor.output, b"\x1B[?25l\x1B[?12l\x1B[?25h\x1B[?12;25h".to_vec());
}

#[test]
fn cursor_visibility_without_capability() {
    let info = bare(None);
    let mut cursor = Cursor::new(&info);
    assert_eq!(cursor.invisible(), Err(TermError::NotSupported));
    assert!(cursor.output.is_empty());
}

#[test]
fn travel_by_one_uses_the_single_step() {
    let info = xterm();
    let mut cursor = Cursor::new(&info);
    assert_eq!(cursor.travel(Travel::Up(1)), Ok(()));
    assert_eq!(cursor.travel(Travel::Left(1)), Ok(()));
    assert_eq!(cursor.output, b"\x1B[A\x08".to_vec());
}

#[test]
fn travel_by_many_expands_the_count() {
    let info = xterm();
    let mut cursor = Cursor::new(&info);
    assert_eq!(cursor.travel(Travel::Up(3)), Ok(()));
    assert_eq!(cursor.travel(Travel::Right(12)), Ok(()));
    assert_eq!(cursor.travel(Travel::Down(0)), Ok(()));
    assert_eq!(cursor.output, b"\x1B[3A\x1B[12C\x1B[0B".to_vec());
}

#[test]
fn travel_by_one_without_single_step() {
    let mut info = bare(None);
    info.set(Capability::ParmDownCursor, b"\x1B[%p1%dB".to_vec());
    let mut cursor = Cursor::new(&info);
    assert_eq!(cursor.travel(Travel::Down(1)), Ok(()));
    assert_eq!(cursor.output, b"\x1B[1B".to_vec());
}

#[test]
fn travel_by_many_repeats_the_single_step() {
    let mut info = bare(None);
    info.set(Capability::CursorRight, b"\x1B[C".to_vec());
    let mut cursor = Cursor::new(&info);
    assert_eq!(cursor.travel(Travel::Right(3)), Ok(()));
    assert_eq!(cursor.output, b"\x1B[C\x1B[C\x1B[C".to_vec());
    let mut cursor = Cursor::new(&info);
    assert_eq!(cursor.travel(Travel::Right(0)), Ok(()));
    assert!(cursor.output.is_empty());
}

#[test]
fn travel_without_any_capability() {
    let info = bare(None);
    let mut cursor = Cursor::new(&info);
    assert_eq!(cursor.travel(Travel::Up(1)), Err(TermError::NotSupported));
    assert_eq!(cursor.travel(Travel::Up(4)), Err(TermError::NotSupported));
    assert_eq!(cursor.travel(Travel::To(Some(1), None)), Err(TermError::NotSupported));
    assert_eq!(cursor.travel(Travel::To(None, None)), Ok(()));
    assert!(cursor.output.is_empty());
}

#[test]
fn travel_to_a_position() {
    let info = xterm();
    let mut cursor = Cursor::new(&info);
    assert_eq!(cursor.travel(Travel::To(Some(3), Some(5))), Ok(()));
    assert_eq!(cursor.travel(Travel::To(Some(7), None)), Ok(()));
    assert_eq!(cursor.travel(Travel::To(None, Some(0))), Ok(()));
    assert_eq!(cursor.output, b"\x1B[6;4H\x1B[8G\x1B[1d".to_vec());
}

#[test]
fn travel_to_a_position_by_row_then_column() {
    let mut info = bare(None);
    info.set(Capability::RowAddress, b"\x1B[%i%p1%dd".to_vec());
    info.set(Capability::ColumnAddress, b"\x1B[%i%p1%dG".to_vec());
    let mut cursor = Cursor::new(&info);
    assert_eq!(cursor.travel(Travel::To(Some(2), Some(9))), Ok(()));
    assert_eq!(cursor.output, b"\x1B[10d\x1B[3G".to_vec());
}

#[test]
fn failed_expansion_is_reported() {
    let mut info = bare(None);
    info.set(Capability::CursorInvisible, b"%d".to_vec());
    let mut cursor = Cursor::new(&info);
    assert_eq!(cursor.invisible(), Err(TermError::Expand));
}

#[test]
fn erase_line() {
    let info = xterm();
    let mut erase = Erase::new(&info);
    assert_eq!(erase.line(None), Ok(()));
    assert_eq!(erase.line(Some(To::Start)), Ok(()));
    assert_eq!(erase.line(Some(To::End)), Ok(()));
    assert_eq!(erase.output, b"\x1B[1K\x1B[K\x1B[1K\x1B[K".to_vec());
}

#[test]
fn erase_line_stops_at_first_missing_capability() {
    let mut info = bare(None);
    info.set(Capability::ClrEol, b"\x1B[K".to_vec());
    let mut erase = Erase::new(&info);
    assert_eq!(erase.line(None), Err(TermError::NotSupported));
    assert!(erase.output.is_empty());
}

#[test]
fn erase_screen() {
    let info = xterm();
    let mut erase = Erase::new(&info);
    assert_eq!(erase.screen(None), Ok(()));
    assert_eq!(erase.screen(Some(To::End)), Ok(()));
    assert_eq!(erase.screen(Some(To::Start)), Err(TermError::NotSupported));
    assert_eq!(erase.output, b"\x1B[H\x1B[2J\x1B[J".to_vec());
}

#[test]
fn screen_clear() {
    let info = xterm();
    let mut screen = Screen::new(&info);
    assert_eq!(screen.clear(), Ok(()));
    assert_eq!(screen.output, b"\x1B[H\x1B[2J".to_vec());
    let info = bare(None);
    let mut screen = Screen::new(&info);
    assert_eq!(screen.clear(), Err(TermError::NotSupported));
}

#[test]
fn show_and_conceal() {
    let info = xterm();
    let mut output = Vec::new();
    assert_eq!(show(&info, &mut output), Ok(()));
    assert_eq!(conceal(&info, &mut output), Ok(()));
    assert_eq!(output, b"\x1B[?12l\x1B[?25h\x1B[?25l".to_vec());
}

#[test]
fn conceal_with_failed_expansion_writes_nothing() {
    let mut info = bare(None);
    info.set(Capability::CursorInvisible, b"x%d".to_vec());
    let mut output = b"kept".to_vec();
    assert_eq!(conceal(&info, &mut output), Err(TermError::Expand));
    assert_eq!(output, b"kept".to_vec());
}

#[test]
fn text_weight() {
    let info = xterm();
    let mut text = Text::new(&info);
    assert_eq!(text.weight(Weight::Bold), Ok(()));
    assert_eq!(text.weight(Weight::Faint), Ok(()));
    assert_eq!(text.weight(Weight::Default), Ok(()));
    assert_eq!(text.output, b"\x1B[1m\x1B[2m\x1B[22m".to_vec());
    assert_eq!(Weight::default(), Weight::Default);
}

#[test]
fn text_attribute_falls_back_when_expansion_fails() {
    let mut info = bare(None);
    info.set(Capability::EnterBoldMode, b"%d".to_vec());
    let mut text = Text::new(&info);
    assert_eq!(text.weight(Weight::Bold), Ok(()));
    assert!(text.output.ends_with(b"\x1B[1m"));
}

#[test]
fn text_flags() {
    let info = xterm();
    let mut text = Text::new(&info);
    assert_eq!(text.reverse(true), Ok(()));
    assert_eq!(text.reverse(false), Ok(()));
    assert_eq!(text.blink(true), Ok(()));
    assert_eq!(text.blink(false), Ok(()));
    assert_eq!(text.invisible(true), Ok(()));
    assert_eq!(text.invisible(false), Ok(()));
    assert_eq!(text.struck(true), Ok(()));
    assert_eq!(text.struck(false), Ok(()));
    assert_eq!(
        text.output,
        b"\x1B[7m\x1B[27m\x1B[5m\x1B[25m\x1B[8m\x1B[28m\x1B[9m\x1B[29m".to_vec()
    );
}

#[test]
fn text_switches() {
    let info = xterm();
    let mut text = Text::new(&info);
    assert_eq!(text.italic(true), Ok(()));
    assert_eq!(text.italic(false), Ok(()));
    assert_eq!(text.underline(true), Ok(()));
    assert_eq!(text.underline(false), Ok(()));
    assert_eq!(text.alternative(true), Ok(()));
    assert_eq!(text.alternative(false), Ok(()));
    assert_eq!(text.standout(true), Err(TermError::NotSupported));
    assert_eq!(text.default(), Ok(()));
    assert_eq!(
        text.output,
        b"\x1B[3m\x1B[23m\x1B[4m\x1B[24m\x1B(0\x1B(B\x1B(B\x1B[m".to_vec()
    );
}

#[test]
fn text_write() {
    let info = bare(None);
    let mut text = Text::new(&info);
    assert_eq!(text.write("héllo"), Ok(()));
    assert_eq!(text.output, "héllo".as_bytes().to_vec());
}

#[test]
fn foreground_through_the_description() {
    let info = xterm();
    let mut text = Text::new(&info);
    assert_eq!(text.foreground(Color::Index(1)), Ok(()));
    assert_eq!(text.foreground(Color::Index(9)), Ok(()));
    assert_eq!(text.foreground(Color::Index(200)), Ok(()));
    assert_eq!(text.output, b"\x1B[31m\x1B[91m\x1B[38;5;200m".to_vec());
}

#[test]
fn background_through_the_description() {
    let info = xterm();
    let mut text = Text::new(&info);
    assert_eq!(text.background(Color::Index(2)), Ok(()));
    assert_eq!(text.background(Color::Index(10)), Ok(()));
    assert_eq!(text.background(Color::Index(17)), Ok(()));
    assert_eq!(text.output, b"\x1B[42m\x1B[102m\x1B[48;5;17m".to_vec());
}

#[test]
fn colors_without_capabilities() {
    let info = bare(Some(256));
    let mut text = Text::new(&info);
    assert_eq!(text.foreground(Color::Index(3)), Ok(()));
    assert_eq!(text.foreground(Color::Index(12)), Ok(()));
    assert_eq!(text.foreground(Color::Index(255)), Ok(()));
    assert_eq!(text.background(Color::Index(0)), Ok(()));
    assert_eq!(text.background(Color::Index(15)), Ok(()));
    assert_eq!(text.background(Color::Index(100)), Ok(()));
    assert_eq!(
        text.output,
        b"\x1B[33m\x1B[94m\x1B[38;5;255m\x1B[40m\x1B[107m\x1B[48;5;100m".to_vec()
    );
}

#[test]
fn colors_beyond_the_description() {
    let info = bare(Some(8));
    let mut text = Text::new(&info);
    assert_eq!(text.foreground(Color::Index(7)), Ok(()));
    assert_eq!(text.foreground(Color::Index(8)), Err(TermError::NotSupported));
    assert_eq!(text.background(Color::Index(16)), Err(TermError::NotSupported));
    assert_eq!(text.output, b"\x1B[37m".to_vec());
    let info = bare(None);
    let mut text = Text::new(&info);
    assert_eq!(text.foreground(Color::Index(1)), Err(TermError::NotSupported));
    assert_eq!(text.background(Color::Index(1)), Err(TermError::NotSupported));
    assert!(text.output.is_empty());
}

#[test]
fn other_colors() {
    let info = bare(None);
    let mut text = Text::new(&info);
    assert_eq!(text.foreground(Color::Default), Ok(()));
    assert_eq!(text.foreground(Color::Transparent), Ok(()));
    assert_eq!(text.foreground(Color::Rgb(255, 0, 17)), Ok(()));
    assert_eq!(text.background(Color::Default), Ok(()));
    assert_eq!(text.background(Color::Transparent), Ok(()));
    assert_eq!(text.background(Color::Rgb(1, 22, 133)), Ok(()));
    assert_eq!(text.foreground(Color::Cmy(1, 2, 3)), Err(TermError::NotSupported));
    assert_eq!(text.background(Color::Cmyk(1, 2, 3, 4)), Err(TermError::NotSupported));
    assert_eq!(
        text.output,
        b"\x1B[39m\x1B[38;1m\x1B[38;2;255;0;17m\x1B[49m\x1B[48;1m\x1B[48;2;1;22;133m".to_vec()
    );
    assert_eq!(Color::default(), Color::Default);
}

#[test]
fn true_color_through_the_description() {
    let mut info = bare(None);
    info.set(Capability::SetTrueColorForeground, b"\x1B[38:2:%p1%d:%p2%d:%p3%dm".to_vec());
    let mut text = Text::new(&info);
    assert_eq!(text.foreground(Color::Rgb(10, 20, 30)), Ok(()));
    assert_eq!(text.output, b"\x1B[38:2:10:20:30m".to_vec());
}

#[test]
fn malformed_template_is_refused() {
    let mut info = bare(None);
    info.set(Capability::CursorInvisible, b"\x1B[%z".to_vec());
    info.set(Capability::CursorNormal, b"%{2147483647}%~%{0}%{1}%-%/".to_vec());
    info.set(Capability::CursorVisible, b"trailing %".to_vec());
    let mut cursor = Cursor::new(&info);
    assert_eq!(cursor.invisible(), Err(TermError::Refused));
    assert_eq!(cursor.normal(), Err(TermError::Refused));
    assert_eq!(cursor.visible(), Err(TermError::Refused));
    assert!(cursor.output.is_empty());
}

#[test]
fn increment_past_the_largest_number_is_refused() {
    let info = xterm();
    let mut cursor = Cursor::new(&info);
    assert_eq!(cursor.travel(Travel::To(Some(2147483647), Some(0))), Err(TermError::Refused));
    assert_eq!(cursor.travel(Travel::To(Some(2147483646), Some(0))), Ok(()));
    assert_eq!(cursor.output, b"\x1B[1;2147483647H".to_vec());
}

#[test]
fn arithmetic_on_large_parameters_is_refused() {
    let mut info = bare(None);
    info.set(Capability::ParmUpCursor, b"\x1B[%p1%{1}%+%dA".to_vec());
    let mut cursor = Cursor::new(&info);
    assert_eq!(cursor.travel(Travel::Up(5)), Ok(()));
    assert_eq!(cursor.travel(Travel::Up(20000)), Ok(()));
    assert_eq!(cursor.output, b"\x1B[6A\x1B[20001A".to_vec());
    assert_eq!(cursor.travel(Travel::Up(1_500_000_000)), Err(TermError::Refused));
    assert_eq!(cursor.output, b"\x1B[6A\x1B[20001A".to_vec());
}

#[test]
fn empty_and_long_numbers_are_expanded() {
    let mut info = bare(None);
    info.set(Capability::CursorInvisible, b"a%{}".to_vec());
    info.set(Capability::CursorNormal, b"%{123456}%d".to_vec());
    info.set(Capability::CursorVisible, b"%{7}%1234d".to_vec());
    let mut cursor = Cursor::new(&info);
    assert_eq!(cursor.invisible(), Ok(()));
    assert_eq!(cursor.normal(), Ok(()));
    assert_eq!(cursor.output, b"a123456".to_vec());
    assert_eq!(cursor.visible(), Ok(()));
    assert_eq!(cursor.output.len(), 7 + 1234);
    assert!(cursor.output.ends_with(b"07"));
}

#[test]
fn refused_capability_falls_back() {
    let mut info = bare(None);
    info.set(Capability::EnterBoldMode, b"%z".to_vec());
    let mut text = Text::new(&info);
    assert_eq!(text.weight(Weight::Bold), Ok(()));
    assert_eq!(text.output, b"\x1B[1m".to_vec());
}

#[test]
fn accepted_templates() {
    assert!(tame_template(b"plain text", &[]));
    assert!(tame_template(SETAF, &[200]));
    assert!(tame_template(b"\x1B[%i%p1%d;%p2%dH", &[5, 3]));
    assert!(tame_template(b"%p1%:-5d%'x'%c%Pa%ga%l%%", &[1]));
    assert!(tame_template(b"%p1%{10}%/%{16}%*%p1%{10}%m%+%c", &[99]));
    assert!(!tame_template(b"%p1%{10}%/%{16}%*%p1%{10}%m%+%c", &[99999]));
    assert!(!tame_template(b"\x1B[%i%p1%d;%p2%dH", &[2147483647, 0]));
    assert!(tame_template(b"\x1B[%p1%d;%p2%dH", &[2147483647, 0]));
    assert!(tame_template(b"%{12345}%d", &[]));
    assert!(tame_template(b"%{}%1234d", &[1]));
    assert!(!tame_template(b"%p0", &[]));
    assert!(!tame_template(b"%{1", &[]));
    assert!(!tame_template(b"%5z", &[]));
    // A product of two parameters is bounded by the square of the larger.
    assert!(tame_template(b"%p1%p1%*%d", &[46340]));
    assert!(!tame_template(b"%p1%p1%*%d", &[50000]));
    // Direct colour: a large parameter divided by a five-digit number.
    let direct: &[u8] = b"\x1B[%?%p1%{8}%<%t3%p1%d%e38:2::%p1%{65536}%/%d:%p1%{256}%/%{255}%&%d:%p1%{255}%&%d%;m";
    assert!(tame_template(direct, &[0x123456]));
    // Division of the least number by -1 is ruled out.
    let mut doubling = b"%{4095}%~%Pa".to_vec();
    for _ in 0..19 {
        doubling.extend_from_slice(b"%ga%{0}%~%/%ga%^%Pa");
    }
    doubling.extend_from_slice(b"%ga%{0}%~%/");
    assert!(!tame_template(&doubling, &[]));
    assert!(!tame_template(b"%p1%{0}%~%/%d", &[-2147483648]));
    assert!(tame_template(b"%p1%{0}%~%/%d", &[-2147483600]));
}
