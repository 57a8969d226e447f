use ass_track::error::AssParseError;
use ass_track::event;
use ass_track::style;
use ass_track::track::AssTrack;
use ass_track::Config;

#[test]
fn whole_document_round_trips() {
    let text = "[Script Info]\n\
                Title: Example\n\
                PlayResX: 640\n\
                Kerning: yes\n\
                \n\
                [V4+ Styles]\n\
                Format: Name, Fontsize\n\
                Style: Default,20\n\
                \n\
                [Events]\n\
                Format: Layer, Start, End, Text\n\
                Dialogue: 0,0:00:00.00,0:00:05.00,Hello, world";
    let track = AssTrack::parse_track(text).unwrap();
    assert_eq!(track.render(), text);
}

#[test]
fn header_fields_are_first_write_wins() {
    let text = "[Script Info]\n\
                Title: First\n\
                Title: Second\n\
                PlayResX: 640";
    let track = AssTrack::parse_track(text).unwrap();
    assert_eq!(track.header.title.as_deref(), Some("First"));
    assert_eq!(track.header.play_res_x, Some(640));
}

#[test]
fn header_set_keeps_first_value() {
    let mut h = ass_track::info::Header::default();
    h.set(ass_track::info::ConfigKind::Title(String::from("First")));
    h.set(ass_track::info::ConfigKind::Title(String::from("Second")));
    assert_eq!(h.title.as_deref(), Some("First"));
}

#[test]
fn style_schema_is_last_write_wins() {
    let text = "[V4+ Styles]\n\
                Format: Name, Fontsize\n\
                Format: Name, Fontname, Fontsize";
    let track = AssTrack::parse_track(text).unwrap();
    let f = track.styleformat.unwrap();
    assert_eq!(
        f.0,
        vec![style::Token::Name, style::Token::Fontname, style::Token::Fontsize]
    );
}

#[test]
fn styles_after_events_is_fatal() {
    let text = "[Events]\n[V4+ Styles]";
    assert_eq!(AssTrack::parse_track(text).unwrap_err(), AssParseError::EncounteredIllegalHeader);
}

#[test]
fn styles_after_events_is_fatal_across_other_sections() {
    let text = "[Events]\n[Fonts]\n[V4+ Styles]";
    assert_eq!(AssTrack::parse_track(text).unwrap_err(), AssParseError::EncounteredIllegalHeader);
}

#[test]
fn metadata_section_cannot_reopen() {
    let text = "[Script Info]\n[Events]\n[Script Info]";
    assert_eq!(AssTrack::parse_track(text).unwrap_err(), AssParseError::EncounteredIllegalHeader);
}

#[test]
fn data_before_any_section_is_fatal() {
    assert_eq!(AssTrack::parse_track("Title: too early").unwrap_err(), AssParseError::NoParserState);
    // fatal whatever the line's shape, not only for Field: Value lines
    assert_eq!(AssTrack::parse_track("x").unwrap_err(), AssParseError::NoParserState);
}

#[test]
fn unknown_section_data_is_dropped_quietly() {
    let text = "[Script Info]\n\
                Title: Kept\n\
                [Fonts]\n\
                fontname: chaucer.ttf\n\
                not even a field\n\
                [Events]\n\
                Format: Layer, Start, End, Text\n\
                Dialogue: 0,0:00:00.00,0:00:01.00,hi";
    let track = AssTrack::parse_track(text).unwrap();
    assert_eq!(track.header.title.as_deref(), Some("Kept"));
    assert_eq!(track.events.len(), 1);
    assert_eq!(track.events[0].text.as_deref(), Some("hi"));
}

#[test]
fn bad_rows_are_dropped_lines_not_fatal() {
    let text = "[Script Info]\n\
                Unknown Field: v\n\
                PlayResY: not a number\n\
                PlayResY: 480\n\
                [Events]\n\
                Format: Layer, Start, End, Text\n\
                Dialogue: zzz,0:00:00.00,0:00:01.00,bad layer\n\
                Dialogue: 1,0:00:00.00,0:00:01.00,good";
    let track = AssTrack::parse_track(text).unwrap();
    assert_eq!(track.header.play_res_y, Some(480));
    assert_eq!(track.events.len(), 1);
    assert_eq!(track.events[0].layer, 1);
}

#[test]
fn rows_use_default_schemas_when_undeclared() {
    let text = "[V4+ Styles]\n\
                Style: Default,Arial,18,&H00FFFFFF,&H0000FFFF,&H00000000,&H00000000,0,0,0,0,100,100,0,0,1,2,3,2,20,20,20,1\n\
                [Events]\n\
                Dialogue: 0,0:00:00.00,0:00:05.00,Default,,0,0,0,,Hello, world";
    let track = AssTrack::parse_track(text).unwrap();
    assert_eq!(track.styles.len(), 1);
    assert_eq!(track.styles[0].name, "Default");
    assert_eq!(track.styles[0].format.0, style::Format::default().0);
    assert_eq!(track.events.len(), 1);
    assert_eq!(track.events[0].text.as_deref(), Some("Hello, world"));
    assert_eq!(track.events[0].format.0, event::Format::default().0);
}

#[test]
fn empty_input_renders_the_canonical_skeleton() {
    let track = AssTrack::parse_track("").unwrap();
    let out = track.render();
    assert_eq!(
        out,
        "[Script Info]\n\n\n[V4+ Styles]\n\
         Format: Name, Fontname, Fontsize, PrimaryColour, SecondaryColour, OutlineColour, \
         BackColour, Bold, Italic, Underline, StrikeOut, ScaleX, ScaleY, Spacing, Angle, \
         BorderStyle, Outline, Shadow, Alignment, MarginL, MarginR, MarginV, Encoding\n\n\
         [Events]\n\
         Format: Layer, Start, End, Style, Name, MarginL, MarginR, MarginV, Effect, Text"
    );
}

#[test]
fn header_renders_in_canonical_order() {
    let text = "[Script Info]\n\
                Language: en\n\
                Kerning: yes\n\
                ScaledBorderAndShadow: no\n\
                Title: Out of order";
    let track = AssTrack::parse_track(text).unwrap();
    let out = track.render();
    assert!(out.starts_with(
        "[Script Info]\nTitle: Out of order\nScaledBorderAndShadow: no\nKerning: yes\nLanguage: en\n"
    ));
}

#[test]
fn lines_are_trimmed_and_blank_lines_skipped() {
    let text = "\r\n  [Script Info]  \r\n   Title: Padded   \r\n\r\n";
    let track = AssTrack::parse_track(text).unwrap();
    assert_eq!(track.header.title.as_deref(), Some("Padded"));
}

#[test]
fn config_takes_two_ass_paths() {
    let args = vec![
        String::from("prog"),
        String::from("in.ass"),
        String::from("out.ass"),
    ];
    let c = Config::new(&args).unwrap();
    assert_eq!(c.input, "in.ass");
    assert_eq!(c.output, "out.ass");
}

#[test]
fn config_rejects_bad_arguments() {
    assert_eq!(Config::new(&vec![String::from("prog")]).unwrap_err(), String::from("not enough arguments"));
    assert_eq!(Config::new(&vec![
            String::from("prog"),
            String::from("in.txt"),
            String::from("out.ass"),
        ]).unwrap_err(), String::from("file extension must be .ass : in.txt"));
    assert_eq!(Config::new(&vec![
            String::from("prog"),
            String::from("in.ass"),
            String::from("out"),
        ]).unwrap_err(), String::from("file extension must be .ass : out"));
}

#[test]
fn strip_bom_removes_only_a_leading_mark() {
    assert_eq!(ass_track::strip_bom("\u{feff}[Script Info]"), "[Script Info]");
    assert_eq!(ass_track::strip_bom("[Script Info]"), "[Script Info]");
    assert_eq!(ass_track::strip_bom(""), "");
}

#[test]
fn dropped_lines_are_reported_with_their_numbers() {
    let text = "[Script Info]\n\
                Unknown Field: v\n\
                \n\
                PlayResY: 480\n\
                [Fonts]\n\
                stray: data";
    let (result, dropped) = ass_track::parser::parse_track_report(text);
    let track = result.unwrap();
    assert_eq!(track.header.play_res_y, Some(480));
    assert_eq!(
        dropped,
        vec![
            (1, AssParseError::BadConfigField),
            (5, AssParseError::UnknownSection),
        ]
    );
}

#[test]
fn warnings_before_a_fatal_error_are_kept() {
    let text = "[Script Info]\n\
                Unknown Field: v\n\
                [Events]\n\
                [V4+ Styles]";
    let (result, dropped) = ass_track::parser::parse_track_report(text);
    assert_eq!(result.unwrap_err(), AssParseError::EncounteredIllegalHeader);
    assert_eq!(dropped, vec![(1, AssParseError::BadConfigField)]);
}
