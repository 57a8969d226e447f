//! The event section: its column tokens, the event format schema (whose last
//! column must be the free-text column), and typed event records.

use vstd::prelude::*;
use crate::common::Timecode;
use crate::error::AssParseError;
use crate::text::{
    chars_eq_str, chars_to_string, copy_vec, dec_str, int_str, join_from, join_spec,
    lemma_join_push, lemma_split_app, lemma_split_prepend, lemma_split_whole,
    lemma_trim_prepend_ws, opt_str_view, parse_i32_chars, parse_u32_chars, push_dec_i32,
    push_dec_u64, push_str, split_chars, split_spec, trim_chars, trim_spec, u32_parse_spec,
    i32_parse_spec, views_of,
};

verus! {

broadcast use vstd::string::group_string_axioms;

/// Column tokens an event format line may declare.
#[derive(Debug, Clone, Copy, PartialEq, Eq, Structural)]
pub enum Token {
    Layer,
    Start,
    End,
    Style,
    Name,
    MarginL,
    MarginR,
    MarginV,
    Effect,
    Text,
}

impl Token {
    /// The token's text form in a format line.
    pub open spec fn name_spec(self) -> Seq<char> {
        match self {
            Token::Layer => "Layer"@,
            Token::Start => "Start"@,
            Token::End => "End"@,
            Token::Style => "Style"@,
            Token::Name => "Name"@,
            Token::MarginL => "MarginL"@,
            Token::MarginR => "MarginR"@,
            Token::MarginV => "MarginV"@,
            Token::Effect => "Effect"@,
            Token::Text => "Text"@,
        }
    }

    /// Which token a format-line entry names.
    pub open spec fn parse_spec(s: Seq<char>) -> Result<Token, AssParseError> {
        if s == "Layer"@ {
            Ok(Token::Layer)
        } else if s == "Start"@ {
            Ok(Token::Start)
        } else if s == "End"@ {
            Ok(Token::End)
        } else if s == "Style"@ {
            Ok(Token::Style)
        } else if s == "Name"@ {
            Ok(Token::Name)
        } else if s == "MarginL"@ {
            Ok(Token::MarginL)
        } else if s == "MarginR"@ {
            Ok(Token::MarginR)
        } else if s == "MarginV"@ {
            Ok(Token::MarginV)
        } else if s == "Effect"@ {
            Ok(Token::Effect)
        } else if s == "Text"@ {
            Ok(Token::Text)
        } else {
            Err(AssParseError::BadEventToken)
        }
    }

    pub fn parse(s: &Vec<char>) -> (r: Result<Token, AssParseError>)
        ensures
            r == Token::parse_spec(s@),
    {
        if chars_eq_str(s, "Layer") {
            Ok(Token::Layer)
        } else if chars_eq_str(s, "Start") {
            Ok(Token::Start)
        } else if chars_eq_str(s, "End") {
            Ok(Token::End)
        } else if chars_eq_str(s, "Style") {
            Ok(Token::Style)
        } else if chars_eq_str(s, "Name") {
            Ok(Token::Name)
        } else if chars_eq_str(s, "MarginL") {
            Ok(Token::MarginL)
        } else if chars_eq_str(s, "MarginR") {
            Ok(Token::MarginR)
        } else if chars_eq_str(s, "MarginV") {
            Ok(Token::MarginV)
        } else if chars_eq_str(s, "Effect") {
            Ok(Token::Effect)
        } else if chars_eq_str(s, "Text") {
            Ok(Token::Text)
        } else {
            Err(AssParseError::BadEventToken)
        }
    }

    /// Appends the token's text form to `out`.
    pub fn push_name(&self, out: &mut Vec<char>)
        ensures
            final(out)@ == old(out)@ + self.name_spec(),
    {
        match self {
            Token::Layer => push_str(out, "Layer"),
            Token::Start => push_str(out, "Start"),
            Token::End => push_str(out, "End"),
            Token::Style => push_str(out, "Style"),
            Token::Name => push_str(out, "Name"),
            Token::MarginL => push_str(out, "MarginL"),
            Token::MarginR => push_str(out, "MarginR"),
            Token::MarginV => push_str(out, "MarginV"),
            Token::Effect => push_str(out, "Effect"),
            Token::Text => push_str(out, "Text"),
        }
    }
}

/// Every token's text form is a run of letters: non-empty, free of commas
/// and whitespace, already trimmed, and read back as the same token.
pub proof fn lemma_token_name_facts(t: Token)
    ensures
        t.name_spec().len() >= 1,
        forall|i: int| 0 <= i < t.name_spec().len() ==> t.name_spec()[i] != ',',
        forall|i: int|
            0 <= i < t.name_spec().len() ==> !crate::text::is_ws_char(t.name_spec()[i]),
        trim_spec(t.name_spec()) == t.name_spec(),
        Token::parse_spec(t.name_spec()) == Ok::<Token, AssParseError>(t),
{
    reveal_strlit("Layer");
    reveal_strlit("Start");
    reveal_strlit("End");
    reveal_strlit("Style");
    reveal_strlit("Name");
    reveal_strlit("MarginL");
    reveal_strlit("MarginR");
    reveal_strlit("MarginV");
    reveal_strlit("Effect");
    reveal_strlit("Text");
}

/// The column names of a format schema, in order.
pub open spec fn names_of(ts: Seq<Token>) -> Seq<Seq<char>> {
    ts.map_values(|t: Token| t.name_spec())
}

/// The text a format schema puts after `Format: ` on its line.
pub open spec fn format_data_spec(ts: Seq<Token>) -> Seq<char> {
    join_spec(names_of(ts), ", "@)
}

/// Reads the comma-separated entries of a format line, trimming each entry.
pub open spec fn parse_tokens_spec(parts: Seq<Seq<char>>) -> Result<Seq<Token>, AssParseError>
    decreases parts.len(),
{
    if parts.len() == 0 {
        Ok(Seq::empty())
    } else {
        match Token::parse_spec(trim_spec(parts[0])) {
            Err(e) => Err(e),
            Ok(t) => match parse_tokens_spec(parts.subrange(1, parts.len() as int)) {
                Err(e) => Err(e),
                Ok(rest) => Ok(seq![t] + rest),
            },
        }
    }
}

/// An event format schema: the declared column order for event rows. The
/// last column must be the free-text column.
#[derive(Debug, Clone)]
pub struct Format(pub Vec<Token>);

impl View for Format {
    type V = Seq<Token>;

    open spec fn view(&self) -> Seq<Token> {
        self.0@
    }
}

/// What makes a token list a legal event schema.
pub open spec fn valid_format_spec(ts: Seq<Token>) -> bool {
    ts.len() >= 1 && ts.last() == Token::Text
}

impl Format {
    /// The canonical column order used when no format line was declared.
    pub open spec fn default_spec() -> Seq<Token> {
        seq![
            Token::Layer,
            Token::Start,
            Token::End,
            Token::Style,
            Token::Name,
            Token::MarginL,
            Token::MarginR,
            Token::MarginV,
            Token::Effect,
            Token::Text,
        ]
    }

    pub fn new() -> (f: Format)
        ensures
            f@ == Seq::<Token>::empty(),
    {
        Format(Vec::new())
    }

    pub fn push(&mut self, t: Token)
        ensures
            final(self)@ == old(self)@.push(t),
    {
        self.0.push(t);
    }

    /// What a format line's data decodes to: each comma-separated entry is
    /// trimmed and must name a column, and the last column must be `Text`.
    pub open spec fn parse_spec(s: Seq<char>) -> Result<Seq<Token>, AssParseError> {
        match parse_tokens_spec(split_spec(s, ',')) {
            Err(e) => Err(e),
            Ok(ts) => if valid_format_spec(ts) {
                Ok(ts)
            } else {
                Err(AssParseError::TextNotLastToken)
            },
        }
    }

    pub fn parse(s: &Vec<char>) -> (r: Result<Format, AssParseError>)
        ensures
            match r {
                Ok(f) => Format::parse_spec(s@) == Ok::<Seq<Token>, AssParseError>(f@),
                Err(e) => Format::parse_spec(s@) == Err::<Seq<Token>, AssParseError>(e),
            },
    {
        let parts = split_chars(s, ',');
        let ghost vs = views_of(parts@);
        let mut toks: Vec<Token> = Vec::new();
        let mut k: usize = 0;
        proof {
            assert(vs.subrange(0, vs.len() as int) =~= vs);
        }
        while k < parts.len()
            invariant
                0 <= k <= parts@.len(),
                vs == views_of(parts@),
                vs == split_spec(s@, ','),
                parse_tokens_spec(vs) == match parse_tokens_spec(
                    vs.subrange(k as int, vs.len() as int),
                ) {
                    Err(e) => Err::<Seq<Token>, AssParseError>(e),
                    Ok(rest) => Ok::<Seq<Token>, AssParseError>(toks@ + rest),
                },
            decreases parts@.len() - k,
        {
            let trimmed = trim_chars(&parts[k]);
            let ghost sub = vs.subrange(k as int, vs.len() as int);
            proof {
                assert(sub[0] == vs[k as int]);
                assert(sub.subrange(1, sub.len() as int) =~= vs.subrange(
                    k as int + 1,
                    vs.len() as int,
                ));
            }
            match Token::parse(&trimmed) {
                Ok(t) => {
                    proof {
                        match parse_tokens_spec(vs.subrange(k as int + 1, vs.len() as int)) {
                            Err(e) => {},
                            Ok(rest) => {
                                assert(toks@ + (seq![t] + rest) =~= toks@.push(t) + rest);
                            },
                        }
                    }
                    toks.push(t);
                },
                Err(e) => {
                    proof {
                        assert(vs.len() == parts@.len());
                        assert(vs[k as int] == parts@[k as int]@);
                        assert(sub.len() > 0);
                        assert(Token::parse_spec(trim_spec(sub[0])) == Err::<
                            Token,
                            AssParseError,
                        >(e));
                        assert(parse_tokens_spec(sub) == Err::<Seq<Token>, AssParseError>(e));
                        assert(parse_tokens_spec(vs) == Err::<Seq<Token>, AssParseError>(e));
                        assert(Format::parse_spec(s@) == Err::<Seq<Token>, AssParseError>(e));
                    }
                    return Err(e);
                },
            }
            k = k + 1;
        }
        proof {
            assert(vs.subrange(vs.len() as int, vs.len() as int) =~= Seq::<Seq<char>>::empty());
            assert(toks@ + Seq::<Token>::empty() =~= toks@);
        }
        if toks.len() == 0 {
            return Err(AssParseError::TextNotLastToken);
        }
        let last = toks[toks.len() - 1];
        if !matches!(last, Token::Text) {
            return Err(AssParseError::TextNotLastToken);
        }
        Ok(Format(toks))
    }

    /// The whole format line: `Format: ` then the column names separated by
    /// comma and space.
    pub open spec fn render_spec(ts: Seq<Token>) -> Seq<char> {
        "Format: "@ + format_data_spec(ts)
    }

    pub fn push_render(&self, out: &mut Vec<char>)
        ensures
            final(out)@ == old(out)@ + Format::render_spec(self@),
    {
        push_str(out, "Format: ");
        let n = self.0.len();
        let mut k: usize = 0;
        proof {
            assert(names_of(self@).subrange(0, 0) =~= Seq::<Seq<char>>::empty());
            assert(old(out)@ + "Format: "@ + Seq::<char>::empty() =~= old(out)@ + "Format: "@);
        }
        while k < n
            invariant
                0 <= k <= n,
                n == self@.len(),
                out@ == old(out)@ + "Format: "@ + join_spec(
                    names_of(self@).subrange(0, k as int),
                    ", "@,
                ),
            decreases n - k,
        {
            let ghost names = names_of(self@);
            proof {
                assert(names.subrange(0, k as int + 1) =~= names.subrange(0, k as int).push(
                    names[k as int],
                ));
                lemma_join_push(names.subrange(0, k as int), names[k as int], ", "@);
            }
            if k > 0 {
                push_str(out, ", ");
            }
            self.0[k].push_name(out);
            proof {
                if k > 0 {
                    assert(old(out)@ + "Format: "@ + (join_spec(
                        names.subrange(0, k as int),
                        ", "@,
                    ) + ", "@ + names[k as int]) =~= (old(out)@ + "Format: "@ + join_spec(
                        names.subrange(0, k as int),
                        ", "@,
                    )) + ", "@ + names[k as int]);
                } else {
                    assert(join_spec(names.subrange(0, 0), ", "@) =~= Seq::<char>::empty());
                    assert(old(out)@ + "Format: "@ + names[0] =~= (old(out)@ + "Format: "@
                        + Seq::<char>::empty()) + names[0]);
                }
            }
            k = k + 1;
        }
        proof {
            assert(names_of(self@).subrange(0, n as int) =~= names_of(self@));
        }
    }
}

impl Default for Format {
    /// The canonical event schema.
    fn default() -> (f: Format)
        ensures
            f@ == Format::default_spec(),
    {
        let mut v: Vec<Token> = Vec::new();
        v.push(Token::Layer);
        v.push(Token::Start);
        v.push(Token::End);
        v.push(Token::Style);
        v.push(Token::Name);
        v.push(Token::MarginL);
        v.push(Token::MarginR);
        v.push(Token::MarginV);
        v.push(Token::Effect);
        v.push(Token::Text);
        proof {
            assert(v@ =~= Format::default_spec());
        }
        Format(v)
    }
}

/// Mathematical model of an event record.
#[verifier::ext_equal]
pub ghost struct EventV {
    pub format: Seq<Token>,
    pub start_time: Timecode,
    pub end_time: Timecode,
    pub descriptor: Seq<char>,
    pub layer: u32,
    pub style: Option<Seq<char>>,
    pub actor: Option<Seq<char>>,
    pub margin_l: i32,
    pub margin_r: i32,
    pub margin_v: i32,
    pub effect: Option<Seq<char>>,
    pub text: Option<Seq<char>>,
}

/// One timed event row: typed fields, the literal descriptor label that
/// introduced the row, and a copy of the schema it was decoded with, so the
/// original column order survives re-serialization.
#[derive(Debug, Clone)]
pub struct Event {
    pub format: Format,
    pub start_time: Timecode,
    pub end_time: Timecode,
    pub descriptor: String,
    pub layer: u32,
    pub style: Option<String>,
    pub actor: Option<String>,
    pub margin_l: i32,
    pub margin_r: i32,
    pub margin_v: i32,
    pub effect: Option<String>,
    pub text: Option<String>,
}

impl View for Event {
    type V = EventV;

    open spec fn view(&self) -> EventV {
        EventV {
            format: self.format@,
            start_time: self.start_time,
            end_time: self.end_time,
            descriptor: self.descriptor@,
            layer: self.layer,
            style: opt_str_view(self.style),
            actor: opt_str_view(self.actor),
            margin_l: self.margin_l,
            margin_r: self.margin_r,
            margin_v: self.margin_v,
            effect: opt_str_view(self.effect),
            text: opt_str_view(self.text),
        }
    }
}

/// View of the optional descriptor argument to [`Event::parse`].
pub open spec fn opt_chars_view(d: Option<&Vec<char>>) -> Option<Seq<char>> {
    match d {
        Some(x) => Some(x@),
        None => None,
    }
}

/// View of the optional schema argument to [`Event::parse`].
pub open spec fn opt_format_view(f: Option<&Format>) -> Option<Seq<Token>> {
    match f {
        Some(x) => Some(x@),
        None => None,
    }
}

impl Event {
    /// The record every decode starts from: dialogue, default style, ten
    /// seconds long, everything else empty.
    pub open spec fn default_spec() -> EventV {
        EventV {
            format: Format::default_spec(),
            start_time: Timecode { ms: 0 },
            end_time: Timecode { ms: 10000 },
            descriptor: "Dialogue"@,
            layer: 0,
            style: Some("Default"@),
            actor: None,
            margin_l: 0,
            margin_r: 0,
            margin_v: 0,
            effect: None,
            text: None,
        }
    }

    /// Decoding one column value into the record: numeric and timecode
    /// columns go through their codecs (a failure names the column), text
    /// columns are kept verbatim.
    pub open spec fn apply_field_spec(ev: EventV, t: Token, v: Seq<char>) -> Result<
        EventV,
        AssParseError,
    > {
        match t {
            Token::Layer => match u32_parse_spec(v) {
                Some(x) => Ok(EventV { layer: x, ..ev }),
                None => Err(AssParseError::EventNotMatchFormat(Token::Layer)),
            },
            Token::Start => match Timecode::parse_spec(v) {
                Ok(tc) => Ok(EventV { start_time: tc, ..ev }),
                Err(_) => Err(AssParseError::EventNotMatchFormat(Token::Start)),
            },
            Token::End => match Timecode::parse_spec(v) {
                Ok(tc) => Ok(EventV { end_time: tc, ..ev }),
                Err(_) => Err(AssParseError::EventNotMatchFormat(Token::End)),
            },
            Token::Style => Ok(EventV { style: Some(v), ..ev }),
            Token::Name => Ok(EventV { actor: Some(v), ..ev }),
            Token::MarginL => match i32_parse_spec(v) {
                Some(x) => Ok(EventV { margin_l: x, ..ev }),
                None => Err(AssParseError::EventNotMatchFormat(Token::MarginL)),
            },
            Token::MarginR => match i32_parse_spec(v) {
                Some(x) => Ok(EventV { margin_r: x, ..ev }),
                None => Err(AssParseError::EventNotMatchFormat(Token::MarginR)),
            },
            Token::MarginV => match i32_parse_spec(v) {
                Some(x) => Ok(EventV { margin_v: x, ..ev }),
                None => Err(AssParseError::EventNotMatchFormat(Token::MarginV)),
            },
            Token::Effect => Ok(EventV { effect: Some(v), ..ev }),
            Token::Text => Ok(EventV { text: Some(v), ..ev }),
        }
    }

    /// Decoding the column values in schema order; the first failing column
    /// decides the error.
    pub open spec fn decode_cols_spec(
        ev: EventV,
        fmt: Seq<Token>,
        vals: Seq<Seq<char>>,
    ) -> Result<EventV, AssParseError>
        decreases fmt.len(),
    {
        if fmt.len() == 0 {
            Ok(ev)
        } else {
            match Event::apply_field_spec(ev, fmt[0], vals[0]) {
                Err(e) => Err(e),
                Ok(ev2) => Event::decode_cols_spec(
                    ev2,
                    fmt.subrange(1, fmt.len() as int),
                    vals.subrange(1, vals.len() as int),
                ),
            }
        }
    }

    /// What an event data line decodes to under a schema of length `n`: the
    /// first `n - 1` comma-separated fields positionally, and everything
    /// after them — embedded commas preserved — as the final free-text
    /// value. A line with fewer fields is rejected.
    pub open spec fn parse_spec(
        s: Seq<char>,
        d: Option<Seq<char>>,
        f: Option<Seq<Token>>,
    ) -> Result<EventV, AssParseError> {
        let fmt = match f {
            Some(x) => x,
            None => Format::default_spec(),
        };
        let dsc = match d {
            Some(x) => x,
            None => "Dialogue"@,
        };
        let ev0 = EventV { format: fmt, descriptor: dsc, ..Event::default_spec() };
        let fields = split_spec(s, ',');
        if fields.len() < fmt.len() {
            Err(AssParseError::EventTooShort)
        } else {
            let text = join_spec(fields.subrange(fmt.len() - 1, fields.len() as int), ","@);
            let vals = fields.subrange(0, fmt.len() - 1).push(text);
            Event::decode_cols_spec(ev0, fmt, vals)
        }
    }

    /// Decodes one event data line. `d` is the descriptor label the line was
    /// introduced with, `f` the active schema; either falls back to its
    /// default when absent.
    pub fn parse(s: &Vec<char>, d: Option<&Vec<char>>, f: Option<&Format>) -> (r: Result<
        Event,
        AssParseError,
    >)
        requires
            match f {
                Some(fmt) => fmt@.len() >= 1,
                None => true,
            },
        ensures
            match r {
                Ok(ev) => Event::parse_spec(s@, opt_chars_view(d), opt_format_view(f)) == Ok::<
                    EventV,
                    AssParseError,
                >(ev@),
                Err(e) => Event::parse_spec(s@, opt_chars_view(d), opt_format_view(f)) == Err::<
                    EventV,
                    AssParseError,
                >(e),
            },
    {
        let mut res = Event::default();
        if let Some(v) = d {
            res.descriptor = chars_to_string(v);
        }
        if let Some(v) = f {
            res.format = Format(copy_vec(&v.0));
        }
        let ghost fmt = res@.format;
        let ghost ev0 = res@;
        let ghost spec_result = Event::parse_spec(s@, opt_chars_view(d), opt_format_view(f));
        let fields = split_chars(s, ',');
        let ghost fvs = views_of(fields@);
        let n = res.format.0.len();
        proof {
            assert(fvs.len() == fields@.len());
            assert(fmt == match opt_format_view(f) {
                Some(x) => x,
                None => Format::default_spec(),
            });
            assert(res@.descriptor == match opt_chars_view(d) {
                Some(x) => x,
                None => "Dialogue"@,
            });
            assert(ev0 =~= EventV {
                format: fmt,
                descriptor: res@.descriptor,
                ..Event::default_spec()
            });
        }
        if fields.len() < n {
            proof {
                assert(spec_result == Err::<EventV, AssParseError>(
                    AssParseError::EventTooShort,
                ));
            }
            return Err(AssParseError::EventTooShort);
        }
        let text_chars = join_from(&fields, n - 1, ',');
        let ghost vals = fvs.subrange(0, n as int - 1).push(text_chars@);
        proof {
            reveal_strlit(",");
            assert(","@ =~= seq![',']);
            assert(text_chars@ == join_spec(fvs.subrange(n as int - 1, fvs.len() as int), ","@));
            assert(vals.len() == n);
            assert(fmt.subrange(0, fmt.len() as int) =~= fmt);
            assert(vals.subrange(0, vals.len() as int) =~= vals);
            assert(spec_result == Event::decode_cols_spec(ev0, fmt, vals));
        }
        let mut j: usize = 0;
        while j < n
            invariant
                0 <= j <= n,
                n == fmt.len(),
                n >= 1,
                n == res.format.0@.len(),
                vals.len() == n,
                res@.format == fmt,
                fmt == res.format@,
                fvs == views_of(fields@),
                n as int - 1 <= fvs.len(),
                vals == fvs.subrange(0, n as int - 1).push(text_chars@),
                spec_result == Event::parse_spec(s@, opt_chars_view(d), opt_format_view(f)),
                spec_result == Event::decode_cols_spec(
                    res@,
                    fmt.subrange(j as int, n as int),
                    vals.subrange(j as int, n as int),
                ),
            decreases n - j,
        {
            let ghost fsub = fmt.subrange(j as int, n as int);
            let ghost vsub = vals.subrange(j as int, n as int);
            proof {
                assert(fsub.len() > 0);
                assert(fsub[0] == fmt[j as int]);
                assert(vsub[0] == vals[j as int]);
                assert(fsub.subrange(1, fsub.len() as int) =~= fmt.subrange(
                    j as int + 1,
                    n as int,
                ));
                assert(vsub.subrange(1, vsub.len() as int) =~= vals.subrange(
                    j as int + 1,
                    n as int,
                ));
            }
            let value: &Vec<char> = if j < n - 1 {
                proof {
                    assert(vals[j as int] == fvs[j as int]);
                    assert(fvs[j as int] == fields@[j as int]@);
                }
                &fields[j]
            } else {
                proof {
                    assert(vals[j as int] == text_chars@);
                }
                &text_chars
            };
            let ghost pre = res@;
            let tok = res.format.0[j];
            match tok {
                Token::Layer => {
                    match parse_u32_chars(value) {
                        Some(x) => {
                            res.layer = x;
                        },
                        None => {
                            return Err(AssParseError::EventNotMatchFormat(Token::Layer));
                        },
                    }
                },
                Token::Start => {
                    match Timecode::parse(value) {
                        Ok(tc) => {
                            res.start_time = tc;
                        },
                        Err(_) => {
                            return Err(AssParseError::EventNotMatchFormat(Token::Start));
                        },
                    }
                },
                Token::End => {
                    match Timecode::parse(value) {
                        Ok(tc) => {
                            res.end_time = tc;
                        },
                        Err(_) => {
                            return Err(AssParseError::EventNotMatchFormat(Token::End));
                        },
                    }
                },
                Token::Style => {
                    res.style = Some(chars_to_string(value));
                },
                Token::Name => {
                    res.actor = Some(chars_to_string(value));
                },
                Token::MarginL => {
                    match parse_i32_chars(value) {
                        Some(x) => {
                            res.margin_l = x;
                        },
                        None => {
                            return Err(AssParseError::EventNotMatchFormat(Token::MarginL));
                        },
                    }
                },
                Token::MarginR => {
                    match parse_i32_chars(value) {
                        Some(x) => {
                            res.margin_r = x;
                        },
                        None => {
                            return Err(AssParseError::EventNotMatchFormat(Token::MarginR));
                        },
                    }
                },
                Token::MarginV => {
                    match parse_i32_chars(value) {
                        Some(x) => {
                            res.margin_v = x;
                        },
                        None => {
                            return Err(AssParseError::EventNotMatchFormat(Token::MarginV));
                        },
                    }
                },
                Token::Effect => {
                    res.effect = Some(chars_to_string(value));
                },
                Token::Text => {
                    res.text = Some(chars_to_string(value));
                },
            }
            proof {
                assert(Event::apply_field_spec(pre, fmt[j as int], vals[j as int]) == Ok::<
                    EventV,
                    AssParseError,
                >(res@)) by {
                    assert(res@ =~= match Event::apply_field_spec(
                        pre,
                        fmt[j as int],
                        vals[j as int],
                    ) {
                        Ok(ev) => ev,
                        Err(_) => res@,
                    });
                }
            }
            j = j + 1;
        }
        proof {
            assert(fmt.subrange(n as int, n as int) =~= Seq::<Token>::empty());
            assert(vals.subrange(n as int, n as int) =~= Seq::<Seq<char>>::empty());
            assert(spec_result == Ok::<EventV, AssParseError>(res@));
        }
        Ok(res)
    }

    /// The text one column contributes to the rendered row.
    pub open spec fn field_str_spec(ev: EventV, t: Token) -> Seq<char> {
        match t {
            Token::Layer => dec_str(ev.layer as int),
            Token::Start => ev.start_time.render_spec(),
            Token::End => ev.end_time.render_spec(),
            Token::Style => match ev.style {
                Some(s) => s,
                None => Seq::empty(),
            },
            Token::Name => match ev.actor {
                Some(s) => s,
                None => Seq::empty(),
            },
            Token::MarginL => int_str(ev.margin_l as int),
            Token::MarginR => int_str(ev.margin_r as int),
            Token::MarginV => int_str(ev.margin_v as int),
            Token::Effect => match ev.effect {
                Some(s) => s,
                None => Seq::empty(),
            },
            Token::Text => match ev.text {
                Some(s) => s,
                None => Seq::empty(),
            },
        }
    }

    /// The whole rendered row: the descriptor label, a colon and space, then
    /// the columns in the record's own schema order joined by commas.
    pub open spec fn render_spec(ev: EventV) -> Seq<char> {
        ev.descriptor + ": "@ + join_spec(
            ev.format.map_values(|t: Token| Event::field_str_spec(ev, t)),
            ","@,
        )
    }

    pub fn push_render(&self, out: &mut Vec<char>)
        ensures
            final(out)@ == old(out)@ + Event::render_spec(self@),
    {
        let ghost pieces = self@.format.map_values(
            |t: Token| Event::field_str_spec(self@, t),
        );
        push_str(out, self.descriptor.as_str());
        push_str(out, ": ");
        proof {
            assert(out@ =~= old(out)@ + self@.descriptor + ": "@);
            assert(pieces.subrange(0, 0) =~= Seq::<Seq<char>>::empty());
            assert(out@ + Seq::<char>::empty() =~= out@);
        }
        let n = self.format.0.len();
        let mut k: usize = 0;
        while k < n
            invariant
                0 <= k <= n,
                n == self@.format.len(),
                pieces == self@.format.map_values(
                    |t: Token| Event::field_str_spec(self@, t),
                ),
                out@ == old(out)@ + self@.descriptor + ": "@ + join_spec(
                    pieces.subrange(0, k as int),
                    ","@,
                ),
            decreases n - k,
        {
            proof {
                assert(pieces.subrange(0, k as int + 1) =~= pieces.subrange(0, k as int).push(
                    pieces[k as int],
                ));
                lemma_join_push(pieces.subrange(0, k as int), pieces[k as int], ","@);
                reveal_strlit(",");
            }
            if k > 0 {
                out.push(',');
                proof {
                    assert(","@.len() == 1 && ","@[0] == ',');
                    assert((old(out)@ + self@.descriptor + ": "@ + join_spec(
                        pieces.subrange(0, k as int),
                        ","@,
                    )).push(',') =~= old(out)@ + self@.descriptor + ": "@ + (join_spec(
                        pieces.subrange(0, k as int),
                        ","@,
                    ) + ","@));
                }
            }
            let ghost mid = out@;
            let tok = self.format.0[k];
            match tok {
                Token::Layer => push_dec_u64(out, self.layer as u64),
                Token::Start => self.start_time.push_render(out),
                Token::End => self.end_time.push_render(out),
                Token::Style => {
                    if let Some(s) = &self.style {
                        push_str(out, s.as_str());
                    }
                },
                Token::Name => {
                    if let Some(s) = &self.actor {
                        push_str(out, s.as_str());
                    }
                },
                Token::MarginL => push_dec_i32(out, self.margin_l),
                Token::MarginR => push_dec_i32(out, self.margin_r),
                Token::MarginV => push_dec_i32(out, self.margin_v),
                Token::Effect => {
                    if let Some(s) = &self.effect {
                        push_str(out, s.as_str());
                    }
                },
                Token::Text => {
                    if let Some(s) = &self.text {
                        push_str(out, s.as_str());
                    }
                },
            }
            proof {
                assert(pieces[k as int] == Event::field_str_spec(self@, self@.format[k as int]));
                assert(out@ =~= mid + pieces[k as int]);
                if k > 0 {
                    assert(out@ =~= old(out)@ + self@.descriptor + ": "@ + (join_spec(
                        pieces.subrange(0, k as int),
                        ","@,
                    ) + ","@ + pieces[k as int]));
                } else {
                    assert(join_spec(pieces.subrange(0, 0), ","@) =~= Seq::<char>::empty());
                    assert(out@ =~= old(out)@ + self@.descriptor + ": "@ + pieces[0]);
                }
            }
            k = k + 1;
        }
        proof {
            assert(pieces.subrange(0, n as int) =~= pieces);
            assert(old(out)@ + self@.descriptor + ": "@ + join_spec(pieces, ","@) =~= old(out)@
                + Event::render_spec(self@));
        }
    }
}

impl Default for Event {
    /// The default dialogue record.
    fn default() -> (ev: Event)
        ensures
            ev@ == Event::default_spec(),
    {
        let ev = Event {
            format: Format::default(),
            start_time: Timecode { ms: 0 },
            end_time: Timecode { ms: 10000 },
            descriptor: String::from_str("Dialogue"),
            layer: 0,
            style: Some(String::from_str("Default")),
            actor: None,
            margin_l: 0,
            margin_r: 0,
            margin_v: 0,
            effect: None,
            text: None,
        };
        proof {
            assert(ev@ =~= Event::default_spec());
        }
        ev
    }
}

/// Reading a token list only looks at the trimmed head and the tail.
proof fn lemma_parse_tokens_head(p1: Seq<Seq<char>>, p2: Seq<Seq<char>>)
    requires
        p1.len() == p2.len(),
        p1.len() >= 1,
        trim_spec(p1[0]) == trim_spec(p2[0]),
        p1.subrange(1, p1.len() as int) == p2.subrange(1, p2.len() as int),
    ensures
        parse_tokens_spec(p1) == parse_tokens_spec(p2),
{
}

/// Reading a rendered schema back yields the very token list it was
/// rendered from.
///
/// Law: format schemas round-trip through their text form.
#[verifier::rlimit(100)]
pub proof fn lemma_format_round_trip(ts: Seq<Token>)
    requires
        valid_format_spec(ts),
    ensures
        Format::parse_spec(format_data_spec(ts)) == Ok::<Seq<Token>, AssParseError>(ts),
{
    lemma_parse_rendered_tokens(ts);
}

/// Token-list induction behind [`lemma_format_round_trip`].
proof fn lemma_parse_rendered_tokens(ts: Seq<Token>)
    requires
        ts.len() >= 1,
    ensures
        parse_tokens_spec(split_spec(format_data_spec(ts), ',')) == Ok::<
            Seq<Token>,
            AssParseError,
        >(ts),
    decreases ts.len(),
{
    let names = names_of(ts);
    let data = format_data_spec(ts);
    lemma_token_name_facts(ts[0]);
    if ts.len() == 1 {
        assert(data == names[0]);
        lemma_split_whole(data, ',');
        let parts = split_spec(data, ',');
        assert(parts[0] == ts[0].name_spec());
        assert(parts.len() == 1);
        assert(parts.subrange(1, 1) =~= Seq::<Seq<char>>::empty());
        assert(parse_tokens_spec(Seq::<Seq<char>>::empty()) == Ok::<Seq<Token>, AssParseError>(
            Seq::<Token>::empty(),
        ));
        assert(Token::parse_spec(trim_spec(parts[0])) == Ok::<Token, AssParseError>(ts[0]));
        assert(parse_tokens_spec(parts) == Ok::<Seq<Token>, AssParseError>(
            seq![ts[0]] + Seq::<Token>::empty(),
        ));
        assert(seq![ts[0]] + Seq::<Token>::empty() =~= ts);
    } else {
        let rest = ts.subrange(1, ts.len() as int);
        let rest_data = format_data_spec(rest);
        lemma_parse_rendered_tokens(rest);
        assert(names.subrange(1, names.len() as int) =~= names_of(rest));
        assert(data == names[0] + ", "@ + rest_data);
        reveal_strlit(", ");
        assert(", "@ == seq![','] + seq![' ']) by {
            assert(", "@.len() == 2);
            assert(", "@[0] == ',' && ", "@[1] == ' ');
            assert(", "@ =~= seq![','] + seq![' ']);
        }
        assert(names[0] + ", "@ + rest_data =~= names[0] + seq![','] + (seq![' '] + rest_data));
        lemma_split_app(names[0], seq![' '] + rest_data, ',');
        let tail_parts = split_spec(seq![' '] + rest_data, ',');
        assert(split_spec(data, ',') == seq![names[0]] + tail_parts);
        lemma_split_prepend(seq![' '], rest_data, ',');
        let rest_parts = split_spec(rest_data, ',');
        assert(tail_parts == seq![seq![' '] + rest_parts[0]] + rest_parts.subrange(
            1,
            rest_parts.len() as int,
        ));
        // The head of the split of `data` parses to ts[0]; the tail differs
        // from the split of `rest_data` only by a leading space on its first
        // part, which trimming removes.
        lemma_trim_prepend_ws(' ', rest_parts[0]);
        let parts = split_spec(data, ',');
        assert(parts[0] == names[0]);
        assert(parts.subrange(1, parts.len() as int) =~= tail_parts);
        assert(trim_spec(parts[0]) == ts[0].name_spec());
        assert(tail_parts[0] == seq![' '] + rest_parts[0]);
        assert(trim_spec(tail_parts[0]) == trim_spec(rest_parts[0]));
        assert(tail_parts.subrange(1, tail_parts.len() as int) =~= rest_parts.subrange(
            1,
            rest_parts.len() as int,
        ));
        lemma_parse_tokens_head(tail_parts, rest_parts);
        assert(parse_tokens_spec(tail_parts) == parse_tokens_spec(rest_parts));
        assert(parse_tokens_spec(rest_parts) == Ok::<Seq<Token>, AssParseError>(rest));
        assert(parse_tokens_spec(parts) == Ok::<Seq<Token>, AssParseError>(seq![ts[0]] + rest));
        assert(seq![ts[0]] + rest =~= ts);
    }
}

} // verus!
