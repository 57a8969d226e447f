use ass_track::common::{ABGR, Alignment, BorderStyle, Encoding, Timecode, WrapStyle, YCbCrMatrix};
use ass_track::error::AssParseError;
use ass_track::text::{chars_to_string, str_to_chars};

fn chars(s: &str) -> Vec<char> {
    str_to_chars(s)
}

fn rendered_color(c: &ABGR) -> String {
    let mut out: Vec<char> = Vec::new();
    c.push_render(&mut out);
    chars_to_string(&out)
}

fn rendered_timecode(t: &Timecode) -> String {
    let mut out: Vec<char> = Vec::new();
    t.push_render(&mut out);
    chars_to_string(&out)
}

#[test]
fn color_decodes_to_channels() {
    let c = ABGR::parse(&chars("&H00FF00FF")).unwrap();
    assert_eq!(c.a, 0x00);
    assert_eq!(c.b, 0xFF);
    assert_eq!(c.g, 0x00);
    assert_eq!(c.r, 0xFF);
}

#[test]
fn color_round_trips() {
    let c = ABGR::parse(&chars("&H00FF00FF")).unwrap();
    assert_eq!(rendered_color(&c), "&H00FF00FF");
}

#[test]
fn color_accepts_lowercase_digits() {
    let c = ABGR::parse(&chars("&Hdeadbeef")).unwrap();
    assert_eq!(c.a, 0xDE);
    assert_eq!(c.b, 0xAD);
    assert_eq!(c.g, 0xBE);
    assert_eq!(c.r, 0xEF);
    assert_eq!(rendered_color(&c), "&HDEADBEEF");
}

#[test]
fn color_rejects_bad_codes() {
    assert_eq!(ABGR::parse(&chars("&H00FF00F")), Err(AssParseError::BadColourCode));
    assert_eq!(ABGR::parse(&chars("00FF00FF00")), Err(AssParseError::BadColourCode));
    assert_eq!(ABGR::parse(&chars("&H00FF00FG")), Err(AssParseError::BadColourCode));
    assert_eq!(ABGR::parse(&chars("&H+1234567")), Err(AssParseError::BadColourCode));
}

#[test]
fn timecode_decodes_to_milliseconds() {
    let t = Timecode::parse(&chars("1:02:03.45")).unwrap();
    assert_eq!(t.ms, 3_723_450);
}

#[test]
fn timecode_round_trips() {
    let t = Timecode::parse(&chars("1:02:03.45")).unwrap();
    assert_eq!(rendered_timecode(&t), "1:02:03.45");
}

#[test]
fn timecode_renders_from_milliseconds() {
    assert_eq!(rendered_timecode(&Timecode { ms: 0 }), "0:00:00.00");
    assert_eq!(rendered_timecode(&Timecode { ms: 10_000 }), "0:00:10.00");
    // hours keep growing past one digit
    assert_eq!(rendered_timecode(&Timecode { ms: 36_000_000 }), "10:00:00.00");
    // precision below one centisecond is dropped
    assert_eq!(rendered_timecode(&Timecode { ms: 3_723_456 }), "1:02:03.45");
}

#[test]
fn timecode_rejects_bad_codes() {
    assert_eq!(Timecode::parse(&chars("1:2:03.45")), Err(AssParseError::BadTimeCode));
    assert_eq!(Timecode::parse(&chars("1:02:03")), Err(AssParseError::BadTimeCode));
    assert_eq!(Timecode::parse(&chars("")), Err(AssParseError::BadTimeCode));
    assert_eq!(Timecode::parse(&chars("x:02:03.45")), Err(AssParseError::BadTimeCode));
}

#[test]
fn wrap_style_codes() {
    assert_eq!(WrapStyle::parse(&chars("0")), Ok(WrapStyle::Zero));
    assert_eq!(WrapStyle::parse(&chars("3")), Ok(WrapStyle::Three));
    assert_eq!(WrapStyle::parse(&chars("4")), Err(AssParseError::BadWrapStyle));
}

#[test]
fn border_style_codes() {
    assert_eq!(BorderStyle::parse(&chars("1")), Ok(BorderStyle::One));
    assert_eq!(BorderStyle::parse(&chars("3")), Ok(BorderStyle::Three));
    assert_eq!(BorderStyle::parse(&chars("4")), Ok(BorderStyle::Four));
    assert_eq!(BorderStyle::parse(&chars("2")), Err(AssParseError::BadBorderStyle));
}

#[test]
fn alignment_codes() {
    assert_eq!(Alignment::parse(&chars("1")), Ok(Alignment::BottomLeft));
    assert_eq!(Alignment::parse(&chars("5")), Ok(Alignment::Center));
    assert_eq!(Alignment::parse(&chars("9")), Ok(Alignment::TopRight));
    assert_eq!(Alignment::parse(&chars("0")), Err(AssParseError::BadAlignment));
}

#[test]
fn encoding_codes() {
    assert_eq!(Encoding::parse(&chars("0")), Ok(Encoding::Ansi));
    assert_eq!(Encoding::parse(&chars("128")), Ok(Encoding::ShiftJIS));
    assert_eq!(Encoding::parse(&chars("255")), Ok(Encoding::Oem));
    assert_eq!(Encoding::parse(&chars("3")), Err(AssParseError::BadEncoding));
}

#[test]
fn matrix_codes_ignore_case() {
    assert_eq!(YCbCrMatrix::parse(&chars("TV.601")), Ok(YCbCrMatrix::Bt601TV));
    assert_eq!(YCbCrMatrix::parse(&chars("tv.601")), Ok(YCbCrMatrix::Bt601TV));
    assert_eq!(YCbCrMatrix::parse(&chars("Pc.FCC")), Ok(YCbCrMatrix::FccPC));
    assert_eq!(YCbCrMatrix::parse(&chars("bt.601")), Err(AssParseError::BadYCbCrMatrix));
}

#[test]
fn split_line_divides_at_first_colon_with_space() {
    let (field, data) = ass_track::common::split_line(&chars("Title: has: colon")).unwrap();
    assert_eq!(chars_to_string(&field), "Title");
    assert_eq!(chars_to_string(&data), "has: colon");
}

#[test]
fn split_line_needs_whitespace_after_colon() {
    assert_eq!(
        ass_track::common::split_line(&chars("Title:NoSpace")),
        Err(AssParseError::BadLineFormat)
    );
    assert_eq!(
        ass_track::common::split_line(&chars("no colon here")),
        Err(AssParseError::BadLineFormat)
    );
}

#[test]
fn error_messages_name_the_failure() {
    assert_eq!(AssParseError::BadTimeCode.message(), "Invalid time code.");
    assert_eq!(
        AssParseError::EventNotMatchFormat(ass_track::event::Token::Start).message(),
        "Event line does not match format at token Start"
    );
}
