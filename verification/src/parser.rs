//! The section state machine: which section is active, which transitions
//! are legal, and how each line of the document is dispatched. Errors come
//! in two tiers: a fatal one aborts the whole parse, any other only drops
//! the offending line.

use vstd::prelude::*;
use crate::common::split_line_spec;
use crate::common::split_line;
use crate::error::AssParseError;
use crate::event;
use crate::info::{ConfigKind, Header};
use crate::style;
use crate::style::Style;
use crate::text::{
    chars_eq_str, chars_to_string, split_chars, split_spec, str_to_chars, trim_chars, trim_spec,
    views_of,
};
use crate::track::{AssTrack, TrackV, wf_track};

verus! {

broadcast use vstd::string::group_string_axioms;

/// Mathematical model of the machine's state.
pub ghost enum StateV {
    Uninitialized,
    Info,
    Styles,
    Events,
    Other(Seq<char>),
}

/// Which section the parser is currently in; an unrecognized bracketed
/// header carries its literal text.
#[derive(Debug, Clone, PartialEq)]
pub enum ParserState {
    Uninitialized,
    Info,
    Styles,
    Events,
    Other(String),
}

impl View for ParserState {
    type V = StateV;

    open spec fn view(&self) -> StateV {
        match self {
            ParserState::Uninitialized => StateV::Uninitialized,
            ParserState::Info => StateV::Info,
            ParserState::Styles => StateV::Styles,
            ParserState::Events => StateV::Events,
            ParserState::Other(s) => StateV::Other(s@),
        }
    }
}

/// Mathematical model of the whole machine: the active state, whether the
/// event section has ever been entered, and the document built so far.
#[verifier::ext_equal]
pub ghost struct MachineV {
    pub state: StateV,
    pub events_seen: bool,
    pub track: TrackV,
}

/// The machine before any line has been seen.
pub open spec fn init_machine_spec() -> MachineV {
    MachineV { state: StateV::Uninitialized, events_seen: false, track: AssTrack::empty_spec() }
}

/// The legal section transitions. The metadata section may only follow the
/// initial state; the style section is barred once the event section has
/// ever been active; the event section is always reachable; any other
/// bracketed name is accepted as an unrecognized section.
pub open spec fn switch_spec(m: MachineV, new: StateV) -> Result<MachineV, AssParseError> {
    match new {
        StateV::Uninitialized => Err(AssParseError::EnteredNoneState),
        StateV::Info => if !(m.state is Uninitialized) {
            Err(AssParseError::EncounteredIllegalHeader)
        } else {
            Ok(MachineV { state: StateV::Info, ..m })
        },
        StateV::Styles => if m.events_seen {
            Err(AssParseError::EncounteredIllegalHeader)
        } else {
            Ok(MachineV { state: StateV::Styles, ..m })
        },
        StateV::Events => Ok(MachineV { state: StateV::Events, events_seen: true, ..m }),
        StateV::Other(name) => Ok(MachineV { state: StateV::Other(name), ..m }),
    }
}

/// A section header line: a bracket pair with at least one character
/// between.
pub open spec fn is_header_spec(line: Seq<char>) -> bool {
    line.len() >= 3 && line[0] == '[' && line[line.len() - 1] == ']'
}

/// Which state a header line selects.
pub open spec fn header_state_spec(line: Seq<char>) -> StateV {
    if line == "[Script Info]"@ {
        StateV::Info
    } else if line == "[V4+ Styles]"@ {
        StateV::Styles
    } else if line == "[Events]"@ {
        StateV::Events
    } else {
        StateV::Other(line)
    }
}

/// What one (already trimmed, non-blank) line does to the machine: the new
/// machine, and the error the line raised, if any. Any non-header line
/// before the first section header is fatal, whatever its shape. A failed
/// style or event row still leaves the section's schema defaulted, as
/// consuming the row required settling the schema first.
pub open spec fn line_step_spec(m: MachineV, line: Seq<char>) -> (MachineV, Option<
    AssParseError,
>) {
    if is_header_spec(line) {
        match switch_spec(m, header_state_spec(line)) {
            Ok(m2) => (m2, None),
            Err(e) => (m, Some(e)),
        }
    } else if m.state is Uninitialized {
        (m, Some(AssParseError::NoParserState))
    } else {
        match split_line_spec(line) {
            Err(e) => (m, Some(e)),
            Ok(fd) => match m.state {
                StateV::Uninitialized => (m, Some(AssParseError::NoParserState)),
                StateV::Info => match ConfigKind::parse_spec(fd.0, fd.1) {
                    Ok(c) => (
                        MachineV {
                            track: TrackV {
                                header: Header::set_spec(m.track.header, c),
                                ..m.track
                            },
                            ..m
                        },
                        None,
                    ),
                    Err(e) => (m, Some(e)),
                },
                StateV::Styles => if fd.0 == "Format"@ {
                    match style::Format::parse_spec(fd.1) {
                        Ok(ts) => (
                            MachineV {
                                track: TrackV { styleformat: Some(ts), ..m.track },
                                ..m
                            },
                            None,
                        ),
                        Err(e) => (m, Some(e)),
                    }
                } else {
                    let f = match m.track.styleformat {
                        Some(x) => x,
                        None => style::Format::default_spec(),
                    };
                    match Style::parse_spec(fd.1, Some(f)) {
                        Ok(st) => (
                            MachineV {
                                track: TrackV {
                                    styleformat: Some(f),
                                    styles: m.track.styles.push(st),
                                    ..m.track
                                },
                                ..m
                            },
                            None,
                        ),
                        Err(e) => (
                            MachineV {
                                track: TrackV { styleformat: Some(f), ..m.track },
                                ..m
                            },
                            Some(e),
                        ),
                    }
                },
                StateV::Events => if fd.0 == "Format"@ {
                    match event::Format::parse_spec(fd.1) {
                        Ok(ts) => (
                            MachineV {
                                track: TrackV { eventformat: Some(ts), ..m.track },
                                ..m
                            },
                            None,
                        ),
                        Err(e) => (m, Some(e)),
                    }
                } else {
                    let f = match m.track.eventformat {
                        Some(x) => x,
                        None => event::Format::default_spec(),
                    };
                    match event::Event::parse_spec(fd.1, Some(fd.0), Some(f)) {
                        Ok(ev) => (
                            MachineV {
                                track: TrackV {
                                    eventformat: Some(f),
                                    events: m.track.events.push(ev),
                                    ..m.track
                                },
                                ..m
                            },
                            None,
                        ),
                        Err(e) => (
                            MachineV {
                                track: TrackV { eventformat: Some(f), ..m.track },
                                ..m
                            },
                            Some(e),
                        ),
                    }
                },
                StateV::Other(_) => (m, Some(AssParseError::UnknownSection)),
            },
        }
    }
}

/// The errors that abort the whole parse; every other error only drops its
/// line.
pub open spec fn fatal_spec(e: AssParseError) -> bool {
    e == AssParseError::NoParserState || e == AssParseError::EncounteredIllegalHeader
}

/// Runs the machine over a list of raw lines: each is trimmed, blank lines
/// are skipped, a fatal error aborts, and any other error drops its line.
pub open spec fn run_lines_spec(m: MachineV, lines: Seq<Seq<char>>) -> Result<
    MachineV,
    AssParseError,
>
    decreases lines.len(),
{
    if lines.len() == 0 {
        Ok(m)
    } else {
        let line = trim_spec(lines[0]);
        let rest = lines.subrange(1, lines.len() as int);
        if line.len() == 0 {
            run_lines_spec(m, rest)
        } else {
            let sr = line_step_spec(m, line);
            match sr.1 {
                Some(e) => if fatal_spec(e) {
                    Err(e)
                } else {
                    run_lines_spec(sr.0, rest)
                },
                None => run_lines_spec(sr.0, rest),
            }
        }
    }
}

/// Runs the machine as [`run_lines_spec`] does, also collecting, in order,
/// the zero-based raw line number and error of every line that was dropped
/// as recoverable. A fatal error keeps the warnings gathered before it.
pub open spec fn run_lines_report_spec(m: MachineV, lines: Seq<Seq<char>>, k: int) -> (
    Result<MachineV, AssParseError>,
    Seq<(int, AssParseError)>,
)
    decreases lines.len(),
{
    if lines.len() == 0 {
        (Ok(m), Seq::empty())
    } else {
        let line = trim_spec(lines[0]);
        let rest = lines.subrange(1, lines.len() as int);
        if line.len() == 0 {
            run_lines_report_spec(m, rest, k + 1)
        } else {
            let sr = line_step_spec(m, line);
            match sr.1 {
                Some(e) => if fatal_spec(e) {
                    (Err(e), Seq::empty())
                } else {
                    let cont = run_lines_report_spec(sr.0, rest, k + 1);
                    (cont.0, seq![(k, e)] + cont.1)
                },
                None => run_lines_report_spec(sr.0, rest, k + 1),
            }
        }
    }
}

/// Collecting warnings does not change what the run computes.
proof fn lemma_run_report_agrees(m: MachineV, lines: Seq<Seq<char>>, k: int)
    ensures
        run_lines_report_spec(m, lines, k).0 == run_lines_spec(m, lines),
    decreases lines.len(),
{
    if lines.len() > 0 {
        let line = trim_spec(lines[0]);
        let rest = lines.subrange(1, lines.len() as int);
        if line.len() == 0 {
            lemma_run_report_agrees(m, rest, k + 1);
        } else {
            let sr = line_step_spec(m, line);
            match sr.1 {
                Some(e) => {
                    if !fatal_spec(e) {
                        lemma_run_report_agrees(sr.0, rest, k + 1);
                    }
                },
                None => {
                    lemma_run_report_agrees(sr.0, rest, k + 1);
                },
            }
        }
    }
}

/// The dropped lines of a whole parse: zero-based raw line number and the
/// error each raised.
pub open spec fn parse_warnings_spec(s: Seq<char>) -> Seq<(int, AssParseError)> {
    run_lines_report_spec(init_machine_spec(), split_spec(s, '\n'), 0).1
}

/// View of a collected warning list.
pub open spec fn warns_view(v: Seq<(usize, AssParseError)>) -> Seq<(int, AssParseError)> {
    v.map_values(|p: (usize, AssParseError)| (p.0 as int, p.1))
}

/// What a whole document text parses to: the machine is run over the text
/// split at newlines, starting uninitialized with an empty document.
pub open spec fn parse_track_spec(s: Seq<char>) -> Result<TrackV, AssParseError> {
    match run_lines_spec(init_machine_spec(), split_spec(s, '\n')) {
        Ok(m) => Ok(m.track),
        Err(e) => Err(e),
    }
}

/// The machine in flight: the active section, the event-section history
/// bit, and the document being accumulated.
pub struct AssParser {
    pub state: ParserState,
    pub events_seen: bool,
    pub track: AssTrack,
}

impl View for AssParser {
    type V = MachineV;

    open spec fn view(&self) -> MachineV {
        MachineV { state: self.state@, events_seen: self.events_seen, track: self.track@ }
    }
}

impl AssParser {
    /// Performs one section transition, or reports why it is illegal.
    fn switch_state(&mut self, new_state: ParserState) -> (r: Result<(), AssParseError>)
        ensures
            match r {
                Ok(_) => switch_spec(old(self)@, new_state@) == Ok::<MachineV, AssParseError>(
                    final(self)@,
                ),
                Err(e) => switch_spec(old(self)@, new_state@) == Err::<MachineV, AssParseError>(
                    e,
                ) && final(self)@ == old(self)@,
            },
    {
        match new_state {
            ParserState::Uninitialized => Err(AssParseError::EnteredNoneState),
            ParserState::Info => {
                match &self.state {
                    ParserState::Uninitialized => {
                        self.state = ParserState::Info;
                        proof {
                            assert(self@ =~= MachineV { state: StateV::Info, ..old(self)@ });
                        }
                        Ok(())
                    },
                    _ => Err(AssParseError::EncounteredIllegalHeader),
                }
            },
            ParserState::Styles => {
                if self.events_seen {
                    Err(AssParseError::EncounteredIllegalHeader)
                } else {
                    self.state = ParserState::Styles;
                    proof {
                        assert(self@ =~= MachineV { state: StateV::Styles, ..old(self)@ });
                    }
                    Ok(())
                }
            },
            ParserState::Events => {
                self.state = ParserState::Events;
                self.events_seen = true;
                proof {
                    assert(self@ =~= MachineV {
                        state: StateV::Events,
                        events_seen: true,
                        ..old(self)@
                    });
                }
                Ok(())
            },
            ParserState::Other(s) => {
                let ghost sv = s@;
                self.state = ParserState::Other(s);
                proof {
                    assert(self@ =~= MachineV { state: StateV::Other(sv), ..old(self)@ });
                }
                Ok(())
            },
        }
    }
}

/// Dispatches one trimmed, non-blank line to the machine.
#[verifier::rlimit(100)]
fn parse_line(parser: &mut AssParser, line: &Vec<char>) -> (r: Result<(), AssParseError>)
    requires
        wf_track(old(parser)@.track),
    ensures
        wf_track(final(parser)@.track),
        match r {
            Ok(_) => line_step_spec(old(parser)@, line@).0 == final(parser)@ && line_step_spec(
                old(parser)@,
                line@,
            ).1 is None,
            Err(e) => line_step_spec(old(parser)@, line@).0 == final(parser)@ && line_step_spec(
                old(parser)@,
                line@,
            ).1 == Some(e),
        },
{
    let ghost m0 = parser@;
    let ghost step = line_step_spec(m0, line@);
    let n = line.len();
    if n >= 3 && line[0] == '[' && line[n - 1] == ']' {
        let target: ParserState = if chars_eq_str(line, "[Script Info]") {
            ParserState::Info
        } else if chars_eq_str(line, "[V4+ Styles]") {
            ParserState::Styles
        } else if chars_eq_str(line, "[Events]") {
            ParserState::Events
        } else {
            ParserState::Other(chars_to_string(line))
        };
        proof {
            assert(target@ == header_state_spec(line@));
        }
        match parser.switch_state(target) {
            Ok(_) => Ok(()),
            Err(e) => Err(e),
        }
    } else {
        proof {
            assert(!is_header_spec(line@));
        }
        if matches!(parser.state, ParserState::Uninitialized) {
            return Err(AssParseError::NoParserState);
        }
        let (field, data) = match split_line(line) {
            Ok(p) => p,
            Err(e) => {
                return Err(e);
            },
        };
        match &parser.state {
            ParserState::Uninitialized => Err(AssParseError::NoParserState),
            ParserState::Info => {
                match ConfigKind::parse(&field, &data) {
                    Ok(c) => {
                        let ghost cv = c@;
                        parser.track.header.set(c);
                        proof {
                            assert(parser@ =~= MachineV {
                                track: TrackV {
                                    header: Header::set_spec(m0.track.header, cv),
                                    ..m0.track
                                },
                                ..m0
                            });
                        }
                        Ok(())
                    },
                    Err(e) => Err(e),
                }
            },
            ParserState::Styles => {
                if chars_eq_str(&field, "Format") {
                    match style::Format::parse(&data) {
                        Ok(f) => {
                            let ghost fv = f@;
                            parser.track.styleformat = Some(f);
                            proof {
                                assert(parser@ =~= MachineV {
                                    track: TrackV { styleformat: Some(fv), ..m0.track },
                                    ..m0
                                });
                            }
                            Ok(())
                        },
                        Err(e) => Err(e),
                    }
                } else {
                    if parser.track.styleformat.is_none() {
                        parser.track.styleformat = Some(style::Format::default());
                    }
                    let ghost f = match m0.track.styleformat {
                        Some(x) => x,
                        None => style::Format::default_spec(),
                    };
                    let ghost m1 = MachineV {
                        track: TrackV { styleformat: Some(f), ..m0.track },
                        ..m0
                    };
                    proof {
                        assert(parser@ =~= m1);
                    }
                    let r = Style::parse(&data, parser.track.styleformat.as_ref());
                    match r {
                        Ok(st) => {
                            let ghost sv = st@;
                            parser.track.styles.push(st);
                            proof {
                                assert(parser.track@.styles =~= m0.track.styles.push(sv));
                                assert(parser@ =~= MachineV {
                                    track: TrackV {
                                        styleformat: Some(f),
                                        styles: m0.track.styles.push(sv),
                                        ..m0.track
                                    },
                                    ..m0
                                });
                            }
                            Ok(())
                        },
                        Err(e) => Err(e),
                    }
                }
            },
            ParserState::Events => {
                if chars_eq_str(&field, "Format") {
                    match event::Format::parse(&data) {
                        Ok(f) => {
                            let ghost fv = f@;
                            parser.track.eventformat = Some(f);
                            proof {
                                assert(parser@ =~= MachineV {
                                    track: TrackV { eventformat: Some(fv), ..m0.track },
                                    ..m0
                                });
                            }
                            Ok(())
                        },
                        Err(e) => Err(e),
                    }
                } else {
                    if parser.track.eventformat.is_none() {
                        parser.track.eventformat = Some(event::Format::default());
                    }
                    let ghost f = match m0.track.eventformat {
                        Some(x) => x,
                        None => event::Format::default_spec(),
                    };
                    let ghost m1 = MachineV {
                        track: TrackV { eventformat: Some(f), ..m0.track },
                        ..m0
                    };
                    proof {
                        assert(parser@ =~= m1);
                    }
                    let r = event::Event::parse(
                        &data,
                        Some(&field),
                        parser.track.eventformat.as_ref(),
                    );
                    match r {
                        Ok(ev) => {
                            let ghost evv = ev@;
                            parser.track.events.push(ev);
                            proof {
                                assert(parser.track@.events =~= m0.track.events.push(evv));
                                assert(parser@ =~= MachineV {
                                    track: TrackV {
                                        eventformat: Some(f),
                                        events: m0.track.events.push(evv),
                                        ..m0.track
                                    },
                                    ..m0
                                });
                            }
                            Ok(())
                        },
                        Err(e) => Err(e),
                    }
                }
            },
            ParserState::Other(_) => Err(AssParseError::UnknownSection),
        }
    }
}

/// A second `Format:` line in the style section replaces the schema the
/// first one declared; nothing of the first schema survives.
///
/// Law: the style schema is last-write-wins, unlike the header fields.
pub proof fn lemma_style_schema_last_write_wins(
    m: MachineV,
    l1: Seq<char>,
    l2: Seq<char>,
    d1: Seq<char>,
    d2: Seq<char>,
    ts1: Seq<style::Token>,
    ts2: Seq<style::Token>,
)
    requires
        m.state is Styles,
        !is_header_spec(l1),
        !is_header_spec(l2),
        split_line_spec(l1) == Ok::<(Seq<char>, Seq<char>), AssParseError>(("Format"@, d1)),
        split_line_spec(l2) == Ok::<(Seq<char>, Seq<char>), AssParseError>(("Format"@, d2)),
        style::Format::parse_spec(d1) == Ok::<Seq<style::Token>, AssParseError>(ts1),
        style::Format::parse_spec(d2) == Ok::<Seq<style::Token>, AssParseError>(ts2),
    ensures
        (line_step_spec(m, l1).1 is None),
        line_step_spec(m, l1).0.track.styleformat == Some(ts1),
        (line_step_spec(line_step_spec(m, l1).0, l2).1 is None),
        line_step_spec(line_step_spec(m, l1).0, l2).0.track.styleformat == Some(ts2),
{
}

/// The transition rule itself refuses the style section once the event
/// section has ever been active, whatever states came in between.
///
/// Law: the style-section transition is barred by the full history bit.
pub proof fn lemma_switch_styles_blocked(m: MachineV)
    requires
        m.events_seen,
    ensures
        switch_spec(m, StateV::Styles) == Err::<MachineV, AssParseError>(
            AssParseError::EncounteredIllegalHeader,
        ),
{
}

/// Entering the event section records that fact and never fails.
pub proof fn lemma_enter_events(m: MachineV)
    ensures
        (line_step_spec(m, "[Events]"@).1 is None),
        line_step_spec(m, "[Events]"@).0 == (MachineV {
            state: StateV::Events,
            events_seen: true,
            ..m
        }),
{
    reveal_strlit("[Events]");
    reveal_strlit("[Script Info]");
    reveal_strlit("[V4+ Styles]");
    assert(is_header_spec("[Events]"@));
}

/// No line ever clears the record of the event section having been active.
pub proof fn lemma_events_seen_monotone(m: MachineV, l: Seq<char>)
    requires
        m.events_seen,
    ensures
        line_step_spec(m, l).0.events_seen,
{
}

/// Once the event section has ever been entered, a style section header is
/// a fatal error: the machine refuses the transition and the whole parse
/// aborts.
///
/// Law: the style section is unreachable after the event section.
pub proof fn lemma_events_then_styles_fatal(m: MachineV, rest: Seq<Seq<char>>)
    requires
        m.events_seen,
    ensures
        line_step_spec(m, "[V4+ Styles]"@).0 == m,
        line_step_spec(m, "[V4+ Styles]"@).1 == Some(AssParseError::EncounteredIllegalHeader),
        fatal_spec(AssParseError::EncounteredIllegalHeader),
        run_lines_spec(m, seq!["[V4+ Styles]"@] + rest) == Err::<MachineV, AssParseError>(
            AssParseError::EncounteredIllegalHeader,
        ),
{
    reveal_strlit("[V4+ Styles]");
    reveal_strlit("[Script Info]");
    let hdr = "[V4+ Styles]"@;
    assert(is_header_spec(hdr));
    assert(hdr != "[Script Info]"@);
    assert(header_state_spec(hdr) == StateV::Styles);
    let lines = seq![hdr] + rest;
    assert(lines[0] == hdr);
    assert(lines.len() > 0);
    lemma_trimmed_header(hdr);
    assert(trim_spec(lines[0]) == hdr);
    assert(hdr.len() > 0);
}

/// A bracketed header line carries no surrounding whitespace.
proof fn lemma_trimmed_header(l: Seq<char>)
    requires
        is_header_spec(l),
    ensures
        trim_spec(l) == l,
{
}

/// A data line inside an unrecognized section raises only a recoverable
/// error: the machine is unchanged and the run simply goes on with the next
/// line.
///
/// Law: unknown-section data lines are dropped without aborting the parse.
pub proof fn lemma_unknown_section_line_dropped(m: MachineV, l: Seq<char>, rest: Seq<Seq<char>>)
    requires
        m.state is Other,
        !is_header_spec(l),
        trim_spec(l) == l,
        l.len() > 0,
    ensures
        line_step_spec(m, l).0 == m,
        (line_step_spec(m, l).1 is Some),
        !fatal_spec(line_step_spec(m, l).1->0),
        run_lines_spec(m, seq![l] + rest) == run_lines_spec(m, rest),
{
    let lines = seq![l] + rest;
    assert(lines[0] == l);
    assert(lines.subrange(1, lines.len() as int) =~= rest);
    match split_line_spec(l) {
        Err(e) => {
            assert(line_step_spec(m, l).1 == Some(e));
        },
        Ok(fd) => {
            assert(line_step_spec(m, l).1 == Some(AssParseError::UnknownSection));
        },
    }
}

/// Parses a whole document text, aborting only on a fatal error, and also
/// reports every dropped line: its zero-based raw line number and the error
/// it raised, in input order. On a fatal error the warnings gathered before
/// it are kept.
#[verifier::rlimit(100)]
pub fn parse_track_report(s: &str) -> (r: (
    Result<AssTrack, AssParseError>,
    Vec<(usize, AssParseError)>,
))
    ensures
        match r.0 {
            Ok(t) => parse_track_spec(s@) == Ok::<TrackV, AssParseError>(t@) && wf_track(t@),
            Err(e) => parse_track_spec(s@) == Err::<TrackV, AssParseError>(e),
        },
        warns_view(r.1@) == parse_warnings_spec(s@),
{
    let chars = str_to_chars(s);
    let lines = split_chars(&chars, '\n');
    let ghost lvs = views_of(lines@);
    let mut parser = AssParser {
        state: ParserState::Uninitialized,
        events_seen: false,
        track: AssTrack::default(),
    };
    let mut warns: Vec<(usize, AssParseError)> = Vec::new();
    proof {
        assert(parser@ =~= init_machine_spec());
        assert(lvs.subrange(0, lvs.len() as int) =~= lvs);
        lemma_run_report_agrees(init_machine_spec(), lvs, 0);
        assert(warns_view(warns@) + run_lines_report_spec(parser@, lvs, 0).1 =~=
            run_lines_report_spec(parser@, lvs, 0).1);
    }
    let mut i: usize = 0;
    while i < lines.len()
        invariant
            0 <= i <= lines@.len(),
            lvs == views_of(lines@),
            lvs == split_spec(s@, '\n'),
            lvs.len() == lines@.len(),
            wf_track(parser@.track),
            parse_track_spec(s@) == match run_lines_report_spec(
                parser@,
                lvs.subrange(i as int, lvs.len() as int),
                i as int,
            ).0 {
                Ok(m) => Ok::<TrackV, AssParseError>(m.track),
                Err(e) => Err::<TrackV, AssParseError>(e),
            },
            parse_warnings_spec(s@) == warns_view(warns@) + run_lines_report_spec(
                parser@,
                lvs.subrange(i as int, lvs.len() as int),
                i as int,
            ).1,
        decreases lines@.len() - i,
    {
        let ghost sub = lvs.subrange(i as int, lvs.len() as int);
        proof {
            assert(sub.len() > 0);
            assert(sub[0] == lvs[i as int]);
            assert(lvs[i as int] == lines@[i as int]@);
            assert(sub.subrange(1, sub.len() as int) =~= lvs.subrange(
                i as int + 1,
                lvs.len() as int,
            ));
        }
        let trimmed = trim_chars(&lines[i]);
        let ghost m_pre = parser@;
        if trimmed.len() > 0 {
            match parse_line(&mut parser, &trimmed) {
                Ok(_) => {
                    proof {
                        assert(line_step_spec(m_pre, trimmed@).0 == parser@);
                        assert(run_lines_report_spec(m_pre, sub, i as int)
                            == run_lines_report_spec(
                            parser@,
                            sub.subrange(1, sub.len() as int),
                            i as int + 1,
                        ));
                    }
                },
                Err(e) => {
                    if matches!(
                        e,
                        AssParseError::NoParserState | AssParseError::EncounteredIllegalHeader
                    ) {
                        proof {
                            assert(fatal_spec(e));
                            assert(run_lines_report_spec(m_pre, sub, i as int) == (
                                Err::<MachineV, AssParseError>(e),
                                Seq::<(int, AssParseError)>::empty(),
                            ));
                            assert(warns_view(warns@) + Seq::<(int, AssParseError)>::empty()
                                =~= warns_view(warns@));
                        }
                        return (Err(e), warns);
                    }
                    proof {
                        assert(!fatal_spec(e));
                        let cont = run_lines_report_spec(
                            parser@,
                            sub.subrange(1, sub.len() as int),
                            i as int + 1,
                        );
                        assert(run_lines_report_spec(m_pre, sub, i as int) == (
                            cont.0,
                            seq![(i as int, e)] + cont.1,
                        ));
                        assert(warns_view(warns@.push((i, e))) =~= warns_view(warns@).push(
                            (i as int, e),
                        ));
                        assert(warns_view(warns@) + (seq![(i as int, e)] + cont.1)
                            =~= warns_view(warns@).push((i as int, e)) + cont.1);
                    }
                    warns.push((i, e));
                },
            }
        } else {
            proof {
                assert(run_lines_report_spec(m_pre, sub, i as int) == run_lines_report_spec(
                    parser@,
                    sub.subrange(1, sub.len() as int),
                    i as int + 1,
                ));
            }
        }
        i = i + 1;
    }
    proof {
        assert(lvs.subrange(lvs.len() as int, lvs.len() as int) =~= Seq::<Seq<char>>::empty());
        assert(run_lines_report_spec(parser@, Seq::<Seq<char>>::empty(), i as int) == (
            Ok::<MachineV, AssParseError>(parser@),
            Seq::<(int, AssParseError)>::empty(),
        ));
        assert(warns_view(warns@) + Seq::<(int, AssParseError)>::empty() =~= warns_view(
            warns@,
        ));
    }
    (Ok(parser.track), warns)
}

/// Parses a whole document text, line by line, aborting only on a fatal
/// error.
pub fn parse_track(s: &str) -> (r: Result<AssTrack, AssParseError>)
    ensures
        match r {
            Ok(t) => parse_track_spec(s@) == Ok::<TrackV, AssParseError>(t@) && wf_track(t@),
            Err(e) => parse_track_spec(s@) == Err::<TrackV, AssParseError>(e),
        },
{
    let (r, _warns) = parse_track_report(s);
    r
}

} // verus!
