//! The track aggregate: the whole parsed document, and its serialization
//! back to text in the fixed section order.

use vstd::prelude::*;
use crate::error::AssParseError;
use crate::event;
use crate::event::{Event, EventV};
use crate::info::{Header, HeaderV};
use crate::parser;
use crate::style;
use crate::style::{Style, StyleV};
use crate::text::{chars_to_string, join_from, join_spec, str_to_chars, views_of};

verus! {

broadcast use vstd::string::group_string_axioms;

/// Mathematical model of a whole track.
#[verifier::ext_equal]
pub ghost struct TrackV {
    pub header: HeaderV,
    pub styleformat: Option<Seq<style::Token>>,
    pub styles: Seq<StyleV>,
    pub eventformat: Option<Seq<event::Token>>,
    pub events: Seq<EventV>,
}

/// The parsed document: the metadata header, the declared style and event
/// schemas (when a format line appeared), and the decoded rows in input
/// order.
#[derive(Debug, Clone)]
pub struct AssTrack {
    pub header: Header,
    pub styleformat: Option<style::Format>,
    pub styles: Vec<Style>,
    pub eventformat: Option<event::Format>,
    pub events: Vec<Event>,
}

impl View for AssTrack {
    type V = TrackV;

    open spec fn view(&self) -> TrackV {
        TrackV {
            header: self.header@,
            styleformat: match self.styleformat {
                Some(f) => Some(f@),
                None => None,
            },
            styles: self.styles@.map_values(|st: Style| st@),
            eventformat: match self.eventformat {
                Some(f) => Some(f@),
                None => None,
            },
            events: self.events@.map_values(|ev: Event| ev@),
        }
    }
}

/// A declared event schema always has at least its free-text column; the
/// event row decoder depends on that.
pub open spec fn wf_track(t: TrackV) -> bool {
    match t.eventformat {
        Some(f) => f.len() >= 1,
        None => true,
    }
}

impl AssTrack {
    /// The document with nothing in it.
    pub open spec fn empty_spec() -> TrackV {
        TrackV {
            header: Header::empty_spec(),
            styleformat: None,
            styles: Seq::empty(),
            eventformat: None,
            events: Seq::empty(),
        }
    }

    /// Parses a whole document text into a track, aborting on the first
    /// fatal error.
    pub fn parse_track(s: &str) -> (r: Result<AssTrack, AssParseError>)
        ensures
            match r {
                Ok(t) => parser::parse_track_spec(s@) == Ok::<TrackV, AssParseError>(t@)
                    && wf_track(t@),
                Err(e) => parser::parse_track_spec(s@) == Err::<TrackV, AssParseError>(e),
            },
    {
        parser::parse_track(s)
    }

    /// The lines of the rendered document, in fixed order: the metadata
    /// section, a blank line, the style section with its schema line (the
    /// canonical one when none was declared) and rows, a blank line, and
    /// the event section likewise.
    pub open spec fn render_items_spec(t: TrackV) -> Seq<Seq<char>> {
        seq![
            "[Script Info]"@,
            Header::render_spec(t.header),
            Seq::<char>::empty(),
            "[V4+ Styles]"@,
            style::Format::render_spec(
                match t.styleformat {
                    Some(f) => f,
                    None => style::Format::default_spec(),
                },
            ),
        ] + t.styles.map_values(|st: StyleV| Style::render_spec(st)) + seq![
            Seq::<char>::empty(),
            "[Events]"@,
            event::Format::render_spec(
                match t.eventformat {
                    Some(f) => f,
                    None => event::Format::default_spec(),
                },
            ),
        ] + t.events.map_values(|ev: EventV| Event::render_spec(ev))
    }

    /// The rendered document: the lines above joined by newlines.
    pub open spec fn render_spec(t: TrackV) -> Seq<char> {
        join_spec(AssTrack::render_items_spec(t), "\n"@)
    }

    /// Serializes the track back to text.
    pub fn render(&self) -> (out: String)
        ensures
            out@ == AssTrack::render_spec(self@),
    {
        let ghost items = AssTrack::render_items_spec(self@);
        let mut lines: Vec<Vec<char>> = Vec::new();
        lines.push(str_to_chars("[Script Info]"));
        let mut hchunk: Vec<char> = Vec::new();
        self.header.push_render(&mut hchunk);
        lines.push(hchunk);
        lines.push(Vec::new());
        lines.push(str_to_chars("[V4+ Styles]"));
        let mut sfline: Vec<char> = Vec::new();
        match &self.styleformat {
            Some(f) => f.push_render(&mut sfline),
            None => {
                let d = style::Format::default();
                d.push_render(&mut sfline);
            },
        }
        lines.push(sfline);
        let ghost head = items.subrange(0, 5);
        proof {
            assert(views_of(lines@) =~= head);
        }
        let ghost style_lines = self@.styles.map_values(|st: StyleV| Style::render_spec(st));
        let mut i: usize = 0;
        while i < self.styles.len()
            invariant
                0 <= i <= self.styles@.len(),
                head == items.subrange(0, 5),
                items == AssTrack::render_items_spec(self@),
                style_lines == self@.styles.map_values(|st: StyleV| Style::render_spec(st)),
                self@.styles.len() == self.styles@.len(),
                views_of(lines@) == head + style_lines.subrange(0, i as int),
            decreases self.styles@.len() - i,
        {
            let mut l: Vec<char> = Vec::new();
            self.styles[i].push_render(&mut l);
            proof {
                assert(self@.styles[i as int] == self.styles@[i as int]@);
                assert(l@ == style_lines[i as int]);
                assert(views_of(lines@.push(l)) =~= views_of(lines@).push(l@));
                assert((head + style_lines.subrange(0, i as int)).push(
                    style_lines[i as int],
                ) =~= head + style_lines.subrange(0, i as int + 1));
            }
            lines.push(l);
            i = i + 1;
        }
        proof {
            assert(style_lines.subrange(0, style_lines.len() as int) =~= style_lines);
        }
        lines.push(Vec::new());
        lines.push(str_to_chars("[Events]"));
        let mut efline: Vec<char> = Vec::new();
        match &self.eventformat {
            Some(f) => f.push_render(&mut efline),
            None => {
                let d = event::Format::default();
                d.push_render(&mut efline);
            },
        }
        lines.push(efline);
        let ghost mid = head + style_lines + items.subrange(
            5 + style_lines.len() as int,
            8 + style_lines.len() as int,
        );
        proof {
            assert(views_of(lines@) =~= mid);
        }
        let ghost event_lines = self@.events.map_values(|ev: EventV| Event::render_spec(ev));
        let mut j: usize = 0;
        while j < self.events.len()
            invariant
                0 <= j <= self.events@.len(),
                items == AssTrack::render_items_spec(self@),
                mid == head + style_lines + items.subrange(
                    5 + style_lines.len() as int,
                    8 + style_lines.len() as int,
                ),
                head == items.subrange(0, 5),
                style_lines == self@.styles.map_values(|st: StyleV| Style::render_spec(st)),
                event_lines == self@.events.map_values(|ev: EventV| Event::render_spec(ev)),
                self@.events.len() == self.events@.len(),
                views_of(lines@) == mid + event_lines.subrange(0, j as int),
            decreases self.events@.len() - j,
        {
            let mut l: Vec<char> = Vec::new();
            self.events[j].push_render(&mut l);
            proof {
                assert(self@.events[j as int] == self.events@[j as int]@);
                assert(l@ == event_lines[j as int]);
                assert(views_of(lines@.push(l)) =~= views_of(lines@).push(l@));
                assert((mid + event_lines.subrange(0, j as int)).push(event_lines[j as int])
                    =~= mid + event_lines.subrange(0, j as int + 1));
            }
            lines.push(l);
            j = j + 1;
        }
        proof {
            assert(event_lines.subrange(0, event_lines.len() as int) =~= event_lines);
            assert(views_of(lines@) =~= items);
        }
        let joined = join_from(&lines, 0, '\n');
        proof {
            reveal_strlit("\n");
            assert("\n"@ =~= seq!['\n']);
            assert(views_of(lines@).subrange(0, lines@.len() as int) =~= views_of(lines@));
        }
        chars_to_string(&joined)
    }
}

impl Default for AssTrack {
    /// The empty document.
    fn default() -> (t: AssTrack)
        ensures
            t@ == AssTrack::empty_spec(),
            wf_track(t@),
    {
        let t = AssTrack {
            header: Header::default(),
            styleformat: None,
            styles: Vec::new(),
            eventformat: None,
            events: Vec::new(),
        };
        proof {
            assert(t@ =~= AssTrack::empty_spec());
        }
        t
    }
}

} // verus!
