use ass_track::error::AssParseError;
use ass_track::event;
use ass_track::style;
use ass_track::text::{chars_to_string, str_to_chars};

fn chars(s: &str) -> Vec<char> {
    str_to_chars(s)
}

#[test]
fn event_format_parses_all_tokens() {
    let f = event::Format::parse(&chars(
        "Layer, Start, End, Style, Name, MarginL, MarginR, MarginV, Effect, Text",
    ))
    .unwrap();
    let d = event::Format::default();
    assert_eq!(f.0, d.0);
}

#[test]
fn event_format_round_trips_through_its_line() {
    let f = event::Format::default();
    let mut out: Vec<char> = Vec::new();
    f.push_render(&mut out);
    let line = chars_to_string(&out);
    assert_eq!(
        line,
        "Format: Layer, Start, End, Style, Name, MarginL, MarginR, MarginV, Effect, Text"
    );
    let (field, data) = ass_track::common::split_line(&chars(&line)).unwrap();
    assert_eq!(chars_to_string(&field), "Format");
    let back = event::Format::parse(&data).unwrap();
    assert_eq!(back.0, f.0);
}

#[test]
fn style_format_round_trips_through_its_line() {
    let f = style::Format::default();
    let mut out: Vec<char> = Vec::new();
    f.push_render(&mut out);
    let line = chars_to_string(&out);
    let (field, data) = ass_track::common::split_line(&chars(&line)).unwrap();
    assert_eq!(chars_to_string(&field), "Format");
    let back = style::Format::parse(&data).unwrap();
    assert_eq!(back.0, f.0);
}

#[test]
fn event_format_requires_text_last() {
    assert_eq!(event::Format::parse(&chars("Layer, Text, Start")).unwrap_err(), AssParseError::TextNotLastToken);
    assert_eq!(event::Format::parse(&chars("")).unwrap_err(), AssParseError::BadEventToken);
    assert_eq!(event::Format::parse(&chars("Layer, Banana, Text")).unwrap_err(), AssParseError::BadEventToken);
}

#[test]
fn style_format_rejects_unknown_tokens() {
    assert_eq!(style::Format::parse(&chars("Name, Banana")).unwrap_err(), AssParseError::BadStyleToken);
}

#[test]
fn event_free_text_keeps_embedded_commas() {
    let ev = event::Event::parse(
        &chars("0,0:00:00.00,0:00:05.00,Default,,0,0,0,,Hello, world"),
        None,
        None,
    )
    .unwrap();
    assert_eq!(ev.text.as_deref(), Some("Hello, world"));
    assert_eq!(ev.layer, 0);
    assert_eq!(ev.start_time.ms, 0);
    assert_eq!(ev.end_time.ms, 5_000);
    assert_eq!(ev.style.as_deref(), Some("Default"));
    assert_eq!(ev.actor.as_deref(), Some(""));
    assert_eq!(ev.effect.as_deref(), Some(""));
}

#[test]
fn event_row_too_short_is_rejected() {
    assert_eq!(event::Event::parse(&chars("0,0:00:00.00,0:00:05.00"), None, None).unwrap_err(), AssParseError::EventTooShort);
}

#[test]
fn event_row_names_the_failing_column() {
    assert_eq!(event::Event::parse(
            &chars("x,0:00:00.00,0:00:05.00,Default,,0,0,0,,hi"),
            None,
            None
        ).unwrap_err(), AssParseError::EventNotMatchFormat(event::Token::Layer));
    assert_eq!(event::Event::parse(
            &chars("0,bad,0:00:05.00,Default,,0,0,0,,hi"),
            None,
            None
        ).unwrap_err(), AssParseError::EventNotMatchFormat(event::Token::Start));
}

#[test]
fn event_row_keeps_its_descriptor() {
    let d = chars("Comment");
    let ev = event::Event::parse(
        &chars("0,0:00:00.00,0:00:05.00,Default,,0,0,0,,hi"),
        Some(&d),
        None,
    )
    .unwrap();
    assert_eq!(ev.descriptor, "Comment");
    let mut out: Vec<char> = Vec::new();
    ev.push_render(&mut out);
    assert_eq!(
        chars_to_string(&out),
        "Comment: 0,0:00:00.00,0:00:05.00,Default,,0,0,0,,hi"
    );
}

#[test]
fn style_row_length_mismatch_is_rejected() {
    // the canonical schema has 23 columns; hand it 3 fields
    assert_eq!(style::Style::parse(&chars("a,b,c"), None).unwrap_err(), AssParseError::StyleNotMatchFormat);
    // and 24 fields
    let too_long = "a,b,c,d,e,f,g,h,i,j,k,l,m,n,o,p,q,r,s,t,u,v,w,x";
    assert_eq!(style::Style::parse(&chars(too_long), None).unwrap_err(), AssParseError::StyleNotMatchFormat);
}

#[test]
fn style_row_decodes_under_declared_schema() {
    let f = style::Format::parse(&chars("Name, Fontname, Fontsize, Bold")).unwrap();
    let st = style::Style::parse(&chars("Narrator,Arial,20,-1"), Some(&f)).unwrap();
    assert_eq!(st.name, "Narrator");
    assert_eq!(st.font_name, "Arial");
    assert_eq!(st.font_size, 20);
    assert!(st.bold);
    let mut out: Vec<char> = Vec::new();
    st.push_render(&mut out);
    assert_eq!(chars_to_string(&out), "Style: Narrator,Arial,20,-1");
}

#[test]
fn style_row_rejects_bad_boolean() {
    let f = style::Format::parse(&chars("Name, Bold")).unwrap();
    assert_eq!(style::Style::parse(&chars("a,yes"), Some(&f)).unwrap_err(), AssParseError::BadAssBool);
    assert_eq!(style::ass_bool_to_bool(&chars("-1")), Ok(true));
    assert_eq!(style::ass_bool_to_bool(&chars("0")), Ok(false));
    assert_eq!(style::bool_to_ass_bool(true), "-1");
    assert_eq!(style::bool_to_ass_bool(false), "0");
}

#[test]
fn style_width_columns_keep_their_decimal_text() {
    let f = style::Format::parse(&chars("Name, Outline, Shadow, Spacing")).unwrap();
    let st = style::Style::parse(&chars("a,2.5,0.00,-1.5"), Some(&f)).unwrap();
    assert_eq!(st.outline, "2.5");
    assert_eq!(st.shadow, "0.00");
    assert_eq!(st.spacing, "-1.5");
    assert_eq!(style::Style::parse(&chars("a,wide,0,0"), Some(&f)).unwrap_err(), AssParseError::StyleNotMatchFormat);
}
