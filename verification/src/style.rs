//! The style section: its column tokens, the style format schema, and typed
//! style rows.

use vstd::prelude::*;
use crate::common::{ABGR, Alignment, BorderStyle, Encoding};
use crate::error::AssParseError;
use crate::text::{
    chars_eq_str, chars_to_string, copy_vec, dec_str, int_str, is_digit_char, join_spec,
    lemma_join_push, lemma_split_app, lemma_split_prepend, lemma_split_whole,
    lemma_trim_prepend_ws, opt_str_view, parse_i32_chars, parse_u32_chars, push_dec_i32,
    push_dec_u64, push_str, split_chars, split_spec, trim_chars, trim_spec, u32_parse_spec,
    i32_parse_spec, views_of,
};

verus! {

broadcast use vstd::string::group_string_axioms;

/// Column tokens a style format line may declare.
#[derive(Debug, Clone, Copy, PartialEq, Eq, Structural)]
pub enum Token {
    Name,
    Fontname,
    Fontsize,
    PrimaryColour,
    SecondaryColour,
    OutlineColour,
    BackColour,
    Bold,
    Italic,
    Underline,
    StrikeOut,
    ScaleX,
    ScaleY,
    Spacing,
    Angle,
    BorderStyle,
    Outline,
    Shadow,
    Alignment,
    MarginL,
    MarginR,
    MarginV,
    Encoding,
}

impl Token {
    /// The token's text form in a format line.
    pub open spec fn name_spec(self) -> Seq<char> {
        match self {
            Token::Name => "Name"@,
            Token::Fontname => "Fontname"@,
            Token::Fontsize => "Fontsize"@,
            Token::PrimaryColour => "PrimaryColour"@,
            Token::SecondaryColour => "SecondaryColour"@,
            Token::OutlineColour => "OutlineColour"@,
            Token::BackColour => "BackColour"@,
            Token::Bold => "Bold"@,
            Token::Italic => "Italic"@,
            Token::Underline => "Underline"@,
            Token::StrikeOut => "StrikeOut"@,
            Token::ScaleX => "ScaleX"@,
            Token::ScaleY => "ScaleY"@,
            Token::Spacing => "Spacing"@,
            Token::Angle => "Angle"@,
            Token::BorderStyle => "BorderStyle"@,
            Token::Outline => "Outline"@,
            Token::Shadow => "Shadow"@,
            Token::Alignment => "Alignment"@,
            Token::MarginL => "MarginL"@,
            Token::MarginR => "MarginR"@,
            Token::MarginV => "MarginV"@,
            Token::Encoding => "Encoding"@,
        }
    }

    /// Which token a format-line entry names.
    pub open spec fn parse_spec(s: Seq<char>) -> Result<Token, AssParseError> {
        if s == "Name"@ {
            Ok(Token::Name)
        } else if s == "Fontname"@ {
            Ok(Token::Fontname)
        } else if s == "Fontsize"@ {
            Ok(Token::Fontsize)
        } else if s == "PrimaryColour"@ {
            Ok(Token::PrimaryColour)
        } else if s == "SecondaryColour"@ {
            Ok(Token::SecondaryColour)
        } else if s == "OutlineColour"@ {
            Ok(Token::OutlineColour)
        } else if s == "BackColour"@ {
            Ok(Token::BackColour)
        } else if s == "Bold"@ {
            Ok(Token::Bold)
        } else if s == "Italic"@ {
            Ok(Token::Italic)
        } else if s == "Underline"@ {
            Ok(Token::Underline)
        } else if s == "StrikeOut"@ {
            Ok(Token::StrikeOut)
        } else if s == "ScaleX"@ {
            Ok(Token::ScaleX)
        } else if s == "ScaleY"@ {
            Ok(Token::ScaleY)
        } else if s == "Spacing"@ {
            Ok(Token::Spacing)
        } else if s == "Angle"@ {
            Ok(Token::Angle)
        } else if s == "BorderStyle"@ {
            Ok(Token::BorderStyle)
        } else if s == "Outline"@ {
            Ok(Token::Outline)
        } else if s == "Shadow"@ {
            Ok(Token::Shadow)
        } else if s == "Alignment"@ {
            Ok(Token::Alignment)
        } else if s == "MarginL"@ {
            Ok(Token::MarginL)
        } else if s == "MarginR"@ {
            Ok(Token::MarginR)
        } else if s == "MarginV"@ {
            Ok(Token::MarginV)
        } else if s == "Encoding"@ {
            Ok(Token::Encoding)
        } else {
            Err(AssParseError::BadStyleToken)
        }
    }

    pub fn parse(s: &Vec<char>) -> (r: Result<Token, AssParseError>)
        ensures
            r == Token::parse_spec(s@),
    {
        if chars_eq_str(s, "Name") {
            Ok(Token::Name)
        } else if chars_eq_str(s, "Fontname") {
            Ok(Token::Fontname)
        } else if chars_eq_str(s, "Fontsize") {
            Ok(Token::Fontsize)
        } else if chars_eq_str(s, "PrimaryColour") {
            Ok(Token::PrimaryColour)
        } else if chars_eq_str(s, "SecondaryColour") {
            Ok(Token::SecondaryColour)
        } else if chars_eq_str(s, "OutlineColour") {
            Ok(Token::OutlineColour)
        } else if chars_eq_str(s, "BackColour") {
            Ok(Token::BackColour)
        } else if chars_eq_str(s, "Bold") {
            Ok(Token::Bold)
        } else if chars_eq_str(s, "Italic") {
            Ok(Token::Italic)
        } else if chars_eq_str(s, "Underline") {
            Ok(Token::Underline)
        } else if chars_eq_str(s, "StrikeOut") {
            Ok(Token::StrikeOut)
        } else if chars_eq_str(s, "ScaleX") {
            Ok(Token::ScaleX)
        } else if chars_eq_str(s, "ScaleY") {
            Ok(Token::ScaleY)
        } else if chars_eq_str(s, "Spacing") {
            Ok(Token::Spacing)
        } else if chars_eq_str(s, "Angle") {
            Ok(Token::Angle)
        } else if chars_eq_str(s, "BorderStyle") {
            Ok(Token::BorderStyle)
        } else if chars_eq_str(s, "Outline") {
            Ok(Token::Outline)
        } else if chars_eq_str(s, "Shadow") {
            Ok(Token::Shadow)
        } else if chars_eq_str(s, "Alignment") {
            Ok(Token::Alignment)
        } else if chars_eq_str(s, "MarginL") {
            Ok(Token::MarginL)
        } else if chars_eq_str(s, "MarginR") {
            Ok(Token::MarginR)
        } else if chars_eq_str(s, "MarginV") {
            Ok(Token::MarginV)
        } else if chars_eq_str(s, "Encoding") {
            Ok(Token::Encoding)
        } else {
            Err(AssParseError::BadStyleToken)
        }
    }

    /// Appends the token's text form to `out`.
    pub fn push_name(&self, out: &mut Vec<char>)
        ensures
            final(out)@ == old(out)@ + self.name_spec(),
    {
        match self {
            Token::Name => push_str(out, "Name"),
            Token::Fontname => push_str(out, "Fontname"),
            Token::Fontsize => push_str(out, "Fontsize"),
            Token::PrimaryColour => push_str(out, "PrimaryColour"),
            Token::SecondaryColour => push_str(out, "SecondaryColour"),
            Token::OutlineColour => push_str(out, "OutlineColour"),
            Token::BackColour => push_str(out, "BackColour"),
            Token::Bold => push_str(out, "Bold"),
            Token::Italic => push_str(out, "Italic"),
            Token::Underline => push_str(out, "Underline"),
            Token::StrikeOut => push_str(out, "StrikeOut"),
            Token::ScaleX => push_str(out, "ScaleX"),
            Token::ScaleY => push_str(out, "ScaleY"),
            Token::Spacing => push_str(out, "Spacing"),
            Token::Angle => push_str(out, "Angle"),
            Token::BorderStyle => push_str(out, "BorderStyle"),
            Token::Outline => push_str(out, "Outline"),
            Token::Shadow => push_str(out, "Shadow"),
            Token::Alignment => push_str(out, "Alignment"),
            Token::MarginL => push_str(out, "MarginL"),
            Token::MarginR => push_str(out, "MarginR"),
            Token::MarginV => push_str(out, "MarginV"),
            Token::Encoding => push_str(out, "Encoding"),
        }
    }
}

// One small lemma per column name keeps the literal-comparison work of
// `Token::parse_spec` in a query of its own for each name.
proof fn lemma_parse_name_name()
    ensures
        Token::parse_spec("Name"@) == Ok::<Token, AssParseError>(Token::Name),
{
    reveal_strlit("Name");
}

proof fn lemma_parse_name_fontname()
    ensures
        Token::parse_spec("Fontname"@) == Ok::<Token, AssParseError>(Token::Fontname),
{
    reveal_strlit("Name");
    reveal_strlit("Fontname");
    assert("Fontname"@.len() == 8);
    assert("Name"@.len() == 4);
    assert("Fontname"@ != "Name"@);
}

proof fn lemma_parse_name_fontsize()
    ensures
        Token::parse_spec("Fontsize"@) == Ok::<Token, AssParseError>(Token::Fontsize),
{
    reveal_strlit("Name");
    reveal_strlit("Fontname");
    reveal_strlit("Fontsize");
    assert("Fontsize"@.len() == 8);
    assert("Name"@.len() == 4);
    assert("Fontsize"@ != "Name"@);
    assert("Fontsize"@[4] == 's');
    assert("Fontname"@[4] == 'n');
    assert("Fontsize"@ != "Fontname"@);
}

proof fn lemma_parse_name_primarycolour()
    ensures
        Token::parse_spec("PrimaryColour"@) == Ok::<Token, AssParseError>(Token::PrimaryColour),
{
    reveal_strlit("Name");
    reveal_strlit("Fontname");
    reveal_strlit("Fontsize");
    reveal_strlit("PrimaryColour");
    assert("PrimaryColour"@.len() == 13);
    assert("Name"@.len() == 4);
    assert("PrimaryColour"@ != "Name"@);
    assert("PrimaryColour"@.len() == 13);
    assert("Fontname"@.len() == 8);
    assert("PrimaryColour"@ != "Fontname"@);
    assert("PrimaryColour"@.len() == 13);
    assert("Fontsize"@.len() == 8);
    assert("PrimaryColour"@ != "Fontsize"@);
}

proof fn lemma_parse_name_secondarycolour()
    ensures
        Token::parse_spec("SecondaryColour"@) == Ok::<Token, AssParseError>(Token::SecondaryColour),
{
    reveal_strlit("Name");
    reveal_strlit("Fontname");
    reveal_strlit("Fontsize");
    reveal_strlit("PrimaryColour");
    reveal_strlit("SecondaryColour");
    assert("SecondaryColour"@.len() == 15);
    assert("Name"@.len() == 4);
    assert("SecondaryColour"@ != "Name"@);
    assert("SecondaryColour"@.len() == 15);
    assert("Fontname"@.len() == 8);
    assert("SecondaryColour"@ != "Fontname"@);
    assert("SecondaryColour"@.len() == 15);
    assert("Fontsize"@.len() == 8);
    assert("SecondaryColour"@ != "Fontsize"@);
    assert("SecondaryColour"@.len() == 15);
    assert("PrimaryColour"@.len() == 13);
    assert("SecondaryColour"@ != "PrimaryColour"@);
}

proof fn lemma_parse_name_outlinecolour()
    ensures
        Token::parse_spec("OutlineColour"@) == Ok::<Token, AssParseError>(Token::OutlineColour),
{
    reveal_strlit("Name");
    reveal_strlit("Fontname");
    reveal_strlit("Fontsize");
    reveal_strlit("PrimaryColour");
    reveal_strlit("SecondaryColour");
    reveal_strlit("OutlineColour");
    assert("OutlineColour"@.len() == 13);
    assert("Name"@.len() == 4);
    assert("OutlineColour"@ != "Name"@);
    assert("OutlineColour"@.len() == 13);
    assert("Fontname"@.len() == 8);
    assert("OutlineColour"@ != "Fontname"@);
    assert("OutlineColour"@.len() == 13);
    assert("Fontsize"@.len() == 8);
    assert("OutlineColour"@ != "Fontsize"@);
    assert("OutlineColour"@[0] == 'O');
    assert("PrimaryColour"@[0] == 'P');
    assert("OutlineColour"@ != "PrimaryColour"@);
    assert("OutlineColour"@.len() == 13);
    assert("SecondaryColour"@.len() == 15);
    assert("OutlineColour"@ != "SecondaryColour"@);
}

proof fn lemma_parse_name_backcolour()
    ensures
        Token::parse_spec("BackColour"@) == Ok::<Token, AssParseError>(Token::BackColour),
{
    reveal_strlit("Name");
    reveal_strlit("Fontname");
    reveal_strlit("Fontsize");
    reveal_strlit("PrimaryColour");
    reveal_strlit("SecondaryColour");
    reveal_strlit("OutlineColour");
    reveal_strlit("BackColour");
    assert("BackColour"@.len() == 10);
    assert("Name"@.len() == 4);
    assert("BackColour"@ != "Name"@);
    assert("BackColour"@.len() == 10);
    assert("Fontname"@.len() == 8);
    assert("BackColour"@ != "Fontname"@);
    assert("BackColour"@.len() == 10);
    assert("Fontsize"@.len() == 8);
    assert("BackColour"@ != "Fontsize"@);
    assert("BackColour"@.len() == 10);
    assert("PrimaryColour"@.len() == 13);
    assert("BackColour"@ != "PrimaryColour"@);
    assert("BackColour"@.len() == 10);
    assert("SecondaryColour"@.len() == 15);
    assert("BackColour"@ != "SecondaryColour"@);
    assert("BackColour"@.len() == 10);
    assert("OutlineColour"@.len() == 13);
    assert("BackColour"@ != "OutlineColour"@);
}

proof fn lemma_parse_name_bold()
    ensures
        Token::parse_spec("Bold"@) == Ok::<Token, AssParseError>(Token::Bold),
{
    reveal_strlit("Name");
    reveal_strlit("Fontname");
    reveal_strlit("Fontsize");
    reveal_strlit("PrimaryColour");
    reveal_strlit("SecondaryColour");
    reveal_strlit("OutlineColour");
    reveal_strlit("BackColour");
    reveal_strlit("Bold");
    assert("Bold"@[0] == 'B');
    assert("Name"@[0] == 'N');
    assert("Bold"@ != "Name"@);
    assert("Bold"@.len() == 4);
    assert("Fontname"@.len() == 8);
    assert("Bold"@ != "Fontname"@);
    assert("Bold"@.len() == 4);
    assert("Fontsize"@.len() == 8);
    assert("Bold"@ != "Fontsize"@);
    assert("Bold"@.len() == 4);
    assert("PrimaryColour"@.len() == 13);
    assert("Bold"@ != "PrimaryColour"@);
    assert("Bold"@.len() == 4);
    assert("SecondaryColour"@.len() == 15);
    assert("Bold"@ != "SecondaryColour"@);
    assert("Bold"@.len() == 4);
    assert("OutlineColour"@.len() == 13);
    assert("Bold"@ != "OutlineColour"@);
    assert("Bold"@.len() == 4);
    assert("BackColour"@.len() == 10);
    assert("Bold"@ != "BackColour"@);
}

proof fn lemma_parse_name_italic()
    ensures
        Token::parse_spec("Italic"@) == Ok::<Token, AssParseError>(Token::Italic),
{
    reveal_strlit("Name");
    reveal_strlit("Fontname");
    reveal_strlit("Fontsize");
    reveal_strlit("PrimaryColour");
    reveal_strlit("SecondaryColour");
    reveal_strlit("OutlineColour");
    reveal_strlit("BackColour");
    reveal_strlit("Bold");
    reveal_strlit("Italic");
    assert("Italic"@.len() == 6);
    assert("Name"@.len() == 4);
    assert("Italic"@ != "Name"@);
    assert("Italic"@.len() == 6);
    assert("Fontname"@.len() == 8);
    assert("Italic"@ != "Fontname"@);
    assert("Italic"@.len() == 6);
    assert("Fontsize"@.len() == 8);
    assert("Italic"@ != "Fontsize"@);
    assert("Italic"@.len() == 6);
    assert("PrimaryColour"@.len() == 13);
    assert("Italic"@ != "PrimaryColour"@);
    assert("Italic"@.len() == 6);
    assert("SecondaryColour"@.len() == 15);
    assert("Italic"@ != "SecondaryColour"@);
    assert("Italic"@.len() == 6);
    assert("OutlineColour"@.len() == 13);
    assert("Italic"@ != "OutlineColour"@);
    assert("Italic"@.len() == 6);
    assert("BackColour"@.len() == 10);
    assert("Italic"@ != "BackColour"@);
    assert("Italic"@.len() == 6);
    assert("Bold"@.len() == 4);
    assert("Italic"@ != "Bold"@);
}

proof fn lemma_parse_name_underline()
    ensures
        Token::parse_spec("Underline"@) == Ok::<Token, AssParseError>(Token::Underline),
{
    reveal_strlit("Name");
    reveal_strlit("Fontname");
    reveal_strlit("Fontsize");
    reveal_strlit("PrimaryColour");
    reveal_strlit("SecondaryColour");
    reveal_strlit("OutlineColour");
    reveal_strlit("BackColour");
    reveal_strlit("Bold");
    reveal_strlit("Italic");
    reveal_strlit("Underline");
    assert("Underline"@.len() == 9);
    assert("Name"@.len() == 4);
    assert("Underline"@ != "Name"@);
    assert("Underline"@.len() == 9);
    assert("Fontname"@.len() == 8);
    assert("Underline"@ != "Fontname"@);
    assert("Underline"@.len() == 9);
    assert("Fontsize"@.len() == 8);
    assert("Underline"@ != "Fontsize"@);
    assert("Underline"@.len() == 9);
    assert("PrimaryColour"@.len() == 13);
    assert("Underline"@ != "PrimaryColour"@);
    assert("Underline"@.len() == 9);
    assert("SecondaryColour"@.len() == 15);
    assert("Underline"@ != "SecondaryColour"@);
    assert("Underline"@.len() == 9);
    assert("OutlineColour"@.len() == 13);
    assert("Underline"@ != "OutlineColour"@);
    assert("Underline"@.len() == 9);
    assert("BackColour"@.len() == 10);
    assert("Underline"@ != "BackColour"@);
    assert("Underline"@.len() == 9);
    assert("Bold"@.len() == 4);
    assert("Underline"@ != "Bold"@);
    assert("Underline"@.len() == 9);
    assert("Italic"@.len() == 6);
    assert("Underline"@ != "Italic"@);
}

proof fn lemma_parse_name_strikeout()
    ensures
        Token::parse_spec("StrikeOut"@) == Ok::<Token, AssParseError>(Token::StrikeOut),
{
    reveal_strlit("Name");
    reveal_strlit("Fontname");
    reveal_strlit("Fontsize");
    reveal_strlit("PrimaryColour");
    reveal_strlit("SecondaryColour");
    reveal_strlit("OutlineColour");
    reveal_strlit("BackColour");
    reveal_strlit("Bold");
    reveal_strlit("Italic");
    reveal_strlit("Underline");
    reveal_strlit("StrikeOut");
    assert("StrikeOut"@.len() == 9);
    assert("Name"@.len() == 4);
    assert("StrikeOut"@ != "Name"@);
    assert("StrikeOut"@.len() == 9);
    assert("Fontname"@.len() == 8);
    assert("StrikeOut"@ != "Fontname"@);
    assert("StrikeOut"@.len() == 9);
    assert("Fontsize"@.len() == 8);
    assert("StrikeOut"@ != "Fontsize"@);
    assert("StrikeOut"@.len() == 9);
    assert("PrimaryColour"@.len() == 13);
    assert("StrikeOut"@ != "PrimaryColour"@);
    assert("StrikeOut"@.len() == 9);
    assert("SecondaryColour"@.len() == 15);
    assert("StrikeOut"@ != "SecondaryColour"@);
    assert("StrikeOut"@.len() == 9);
    assert("OutlineColour"@.len() == 13);
    assert("StrikeOut"@ != "OutlineColour"@);
    assert("StrikeOut"@.len() == 9);
    assert("BackColour"@.len() == 10);
    assert("StrikeOut"@ != "BackColour"@);
    assert("StrikeOut"@.len() == 9);
    assert("Bold"@.len() == 4);
    assert("StrikeOut"@ != "Bold"@);
    assert("StrikeOut"@.len() == 9);
    assert("Italic"@.len() == 6);
    assert("StrikeOut"@ != "Italic"@);
    assert("StrikeOut"@[0] == 'S');
    assert("Underline"@[0] == 'U');
    assert("StrikeOut"@ != "Underline"@);
}

proof fn lemma_parse_name_scalex()
    ensures
        Token::parse_spec("ScaleX"@) == Ok::<Token, AssParseError>(Token::ScaleX),
{
    reveal_strlit("Name");
    reveal_strlit("Fontname");
    reveal_strlit("Fontsize");
    reveal_strlit("PrimaryColour");
    reveal_strlit("SecondaryColour");
    reveal_strlit("OutlineColour");
    reveal_strlit("BackColour");
    reveal_strlit("Bold");
    reveal_strlit("Italic");
    reveal_strlit("Underline");
    reveal_strlit("StrikeOut");
    reveal_strlit("ScaleX");
    assert("ScaleX"@.len() == 6);
    assert("Name"@.len() == 4);
    assert("ScaleX"@ != "Name"@);
    assert("ScaleX"@.len() == 6);
    assert("Fontname"@.len() == 8);
    assert("ScaleX"@ != "Fontname"@);
    assert("ScaleX"@.len() == 6);
    assert("Fontsize"@.len() == 8);
    assert("ScaleX"@ != "Fontsize"@);
    assert("ScaleX"@.len() == 6);
    assert("PrimaryColour"@.len() == 13);
    assert("ScaleX"@ != "PrimaryColour"@);
    assert("ScaleX"@.len() == 6);
    assert("SecondaryColour"@.len() == 15);
    assert("ScaleX"@ != "SecondaryColour"@);
    assert("ScaleX"@.len() == 6);
    assert("OutlineColour"@.len() == 13);
    assert("ScaleX"@ != "OutlineColour"@);
    assert("ScaleX"@.len() == 6);
    assert("BackColour"@.len() == 10);
    assert("ScaleX"@ != "BackColour"@);
    assert("ScaleX"@.len() == 6);
    assert("Bold"@.len() == 4);
    assert("ScaleX"@ != "Bold"@);
    assert("ScaleX"@[0] == 'S');
    assert("Italic"@[0] == 'I');
    assert("ScaleX"@ != "Italic"@);
    assert("ScaleX"@.len() == 6);
    assert("Underline"@.len() == 9);
    assert("ScaleX"@ != "Underline"@);
    assert("ScaleX"@.len() == 6);
    assert("StrikeOut"@.len() == 9);
    assert("ScaleX"@ != "StrikeOut"@);
}

proof fn lemma_parse_name_scaley()
    ensures
        Token::parse_spec("ScaleY"@) == Ok::<Token, AssParseError>(Token::ScaleY),
{
    reveal_strlit("Name");
    reveal_strlit("Fontname");
    reveal_strlit("Fontsize");
    reveal_strlit("PrimaryColour");
    reveal_strlit("SecondaryColour");
    reveal_strlit("OutlineColour");
    reveal_strlit("BackColour");
    reveal_strlit("Bold");
    reveal_strlit("Italic");
    reveal_strlit("Underline");
    reveal_strlit("StrikeOut");
    reveal_strlit("ScaleX");
    reveal_strlit("ScaleY");
    assert("ScaleY"@.len() == 6);
    assert("Name"@.len() == 4);
    assert("ScaleY"@ != "Name"@);
    assert("ScaleY"@.len() == 6);
    assert("Fontname"@.len() == 8);
    assert("ScaleY"@ != "Fontname"@);
    assert("ScaleY"@.len() == 6);
    assert("Fontsize"@.len() == 8);
    assert("ScaleY"@ != "Fontsize"@);
    assert("ScaleY"@.len() == 6);
    assert("PrimaryColour"@.len() == 13);
    assert("ScaleY"@ != "PrimaryColour"@);
    assert("ScaleY"@.len() == 6);
    assert("SecondaryColour"@.len() == 15);
    assert("ScaleY"@ != "SecondaryColour"@);
    assert("ScaleY"@.len() == 6);
    assert("OutlineColour"@.len() == 13);
    assert("ScaleY"@ != "OutlineColour"@);
    assert("ScaleY"@.len() == 6);
    assert("BackColour"@.len() == 10);
    assert("ScaleY"@ != "BackColour"@);
    assert("ScaleY"@.len() == 6);
    assert("Bold"@.len() == 4);
    assert("ScaleY"@ != "Bold"@);
    assert("ScaleY"@[0] == 'S');
    assert("Italic"@[0] == 'I');
    assert("ScaleY"@ != "Italic"@);
    assert("ScaleY"@.len() == 6);
    assert("Underline"@.len() == 9);
    assert("ScaleY"@ != "Underline"@);
    assert("ScaleY"@.len() == 6);
    assert("StrikeOut"@.len() == 9);
    assert("ScaleY"@ != "StrikeOut"@);
    assert("ScaleY"@[5] == 'Y');
    assert("ScaleX"@[5] == 'X');
    assert("ScaleY"@ != "ScaleX"@);
}

proof fn lemma_parse_name_spacing()
    ensures
        Token::parse_spec("Spacing"@) == Ok::<Token, AssParseError>(Token::Spacing),
{
    reveal_strlit("Name");
    reveal_strlit("Fontname");
    reveal_strlit("Fontsize");
    reveal_strlit("PrimaryColour");
    reveal_strlit("SecondaryColour");
    reveal_strlit("OutlineColour");
    reveal_strlit("BackColour");
    reveal_strlit("Bold");
    reveal_strlit("Italic");
    reveal_strlit("Underline");
    reveal_strlit("StrikeOut");
    reveal_strlit("ScaleX");
    reveal_strlit("ScaleY");
    reveal_strlit("Spacing");
    assert("Spacing"@.len() == 7);
    assert("Name"@.len() == 4);
    assert("Spacing"@ != "Name"@);
    assert("Spacing"@.len() == 7);
    assert("Fontname"@.len() == 8);
    assert("Spacing"@ != "Fontname"@);
    assert("Spacing"@.len() == 7);
    assert("Fontsize"@.len() == 8);
    assert("Spacing"@ != "Fontsize"@);
    assert("Spacing"@.len() == 7);
    assert("PrimaryColour"@.len() == 13);
    assert("Spacing"@ != "PrimaryColour"@);
    assert("Spacing"@.len() == 7);
    assert("SecondaryColour"@.len() == 15);
    assert("Spacing"@ != "SecondaryColour"@);
    assert("Spacing"@.len() == 7);
    assert("OutlineColour"@.len() == 13);
    assert("Spacing"@ != "OutlineColour"@);
    assert("Spacing"@.len() == 7);
    assert("BackColour"@.len() == 10);
    assert("Spacing"@ != "BackColour"@);
    assert("Spacing"@.len() == 7);
    assert("Bold"@.len() == 4);
    assert("Spacing"@ != "Bold"@);
    assert("Spacing"@.len() == 7);
    assert("Italic"@.len() == 6);
    assert("Spacing"@ != "Italic"@);
    assert("Spacing"@.len() == 7);
    assert("Underline"@.len() == 9);
    assert("Spacing"@ != "Underline"@);
    assert("Spacing"@.len() == 7);
    assert("StrikeOut"@.len() == 9);
    assert("Spacing"@ != "StrikeOut"@);
    assert("Spacing"@.len() == 7);
    assert("ScaleX"@.len() == 6);
    assert("Spacing"@ != "ScaleX"@);
    assert("Spacing"@.len() == 7);
    assert("ScaleY"@.len() == 6);
    assert("Spacing"@ != "ScaleY"@);
}

proof fn lemma_parse_name_angle()
    ensures
        Token::parse_spec("Angle"@) == Ok::<Token, AssParseError>(Token::Angle),
{
    reveal_strlit("Name");
    reveal_strlit("Fontname");
    reveal_strlit("Fontsize");
    reveal_strlit("PrimaryColour");
    reveal_strlit("SecondaryColour");
    reveal_strlit("OutlineColour");
    reveal_strlit("BackColour");
    reveal_strlit("Bold");
    reveal_strlit("Italic");
    reveal_strlit("Underline");
    reveal_strlit("StrikeOut");
    reveal_strlit("ScaleX");
    reveal_strlit("ScaleY");
    reveal_strlit("Spacing");
    reveal_strlit("Angle");
    assert("Angle"@.len() == 5);
    assert("Name"@.len() == 4);
    assert("Angle"@ != "Name"@);
    assert("Angle"@.len() == 5);
    assert("Fontname"@.len() == 8);
    assert("Angle"@ != "Fontname"@);
    assert("Angle"@.len() == 5);
    assert("Fontsize"@.len() == 8);
    assert("Angle"@ != "Fontsize"@);
    assert("Angle"@.len() == 5);
    assert("PrimaryColour"@.len() == 13);
    assert("Angle"@ != "PrimaryColour"@);
    assert("Angle"@.len() == 5);
    assert("SecondaryColour"@.len() == 15);
    assert("Angle"@ != "SecondaryColour"@);
    assert("Angle"@.len() == 5);
    assert("OutlineColour"@.len() == 13);
    assert("Angle"@ != "OutlineColour"@);
    assert("Angle"@.len() == 5);
    assert("BackColour"@.len() == 10);
    assert("Angle"@ != "BackColour"@);
    assert("Angle"@.len() == 5);
    assert("Bold"@.len() == 4);
    assert("Angle"@ != "Bold"@);
    assert("Angle"@.len() == 5);
    assert("Italic"@.len() == 6);
    assert("Angle"@ != "Italic"@);
    assert("Angle"@.len() == 5);
    assert("Underline"@.len() == 9);
    assert("Angle"@ != "Underline"@);
    assert("Angle"@.len() == 5);
    assert("StrikeOut"@.len() == 9);
    assert("Angle"@ != "StrikeOut"@);
    assert("Angle"@.len() == 5);
    assert("ScaleX"@.len() == 6);
    assert("Angle"@ != "ScaleX"@);
    assert("Angle"@.len() == 5);
    assert("ScaleY"@.len() == 6);
    assert("Angle"@ != "ScaleY"@);
    assert("Angle"@.len() == 5);
    assert("Spacing"@.len() == 7);
    assert("Angle"@ != "Spacing"@);
}

proof fn lemma_parse_name_borderstyle()
    ensures
        Token::parse_spec("BorderStyle"@) == Ok::<Token, AssParseError>(Token::BorderStyle),
{
    reveal_strlit("Name");
    reveal_strlit("Fontname");
    reveal_strlit("Fontsize");
    reveal_strlit("PrimaryColour");
    reveal_strlit("SecondaryColour");
    reveal_strlit("OutlineColour");
    reveal_strlit("BackColour");
    reveal_strlit("Bold");
    reveal_strlit("Italic");
    reveal_strlit("Underline");
    reveal_strlit("StrikeOut");
    reveal_strlit("ScaleX");
    reveal_strlit("ScaleY");
    reveal_strlit("Spacing");
    reveal_strlit("Angle");
    reveal_strlit("BorderStyle");
    assert("BorderStyle"@.len() == 11);
    assert("Name"@.len() == 4);
    assert("BorderStyle"@ != "Name"@);
    assert("BorderStyle"@.len() == 11);
    assert("Fontname"@.len() == 8);
    assert("BorderStyle"@ != "Fontname"@);
    assert("BorderStyle"@.len() == 11);
    assert("Fontsize"@.len() == 8);
    assert("BorderStyle"@ != "Fontsize"@);
    assert("BorderStyle"@.len() == 11);
    assert("PrimaryColour"@.len() == 13);
    assert("BorderStyle"@ != "PrimaryColour"@);
    assert("BorderStyle"@.len() == 11);
    assert("SecondaryColour"@.len() == 15);
    assert("BorderStyle"@ != "SecondaryColour"@);
    assert("BorderStyle"@.len() == 11);
    assert("OutlineColour"@.len() == 13);
    assert("BorderStyle"@ != "OutlineColour"@);
    assert("BorderStyle"@.len() == 11);
    assert("BackColour"@.len() == 10);
    assert("BorderStyle"@ != "BackColour"@);
    assert("BorderStyle"@.len() == 11);
    assert("Bold"@.len() == 4);
    assert("BorderStyle"@ != "Bold"@);
    assert("BorderStyle"@.len() == 11);
    assert("Italic"@.len() == 6);
    assert("BorderStyle"@ != "Italic"@);
    assert("BorderStyle"@.len() == 11);
    assert("Underline"@.len() == 9);
    assert("BorderStyle"@ != "Underline"@);
    assert("BorderStyle"@.len() == 11);
    assert("StrikeOut"@.len() == 9);
    assert("BorderStyle"@ != "StrikeOut"@);
    assert("BorderStyle"@.len() == 11);
    assert("ScaleX"@.len() == 6);
    assert("BorderStyle"@ != "ScaleX"@);
    assert("BorderStyle"@.len() == 11);
    assert("ScaleY"@.len() == 6);
    assert("BorderStyle"@ != "ScaleY"@);
    assert("BorderStyle"@.len() == 11);
    assert("Spacing"@.len() == 7);
    assert("BorderStyle"@ != "Spacing"@);
    assert("BorderStyle"@.len() == 11);
    assert("Angle"@.len() == 5);
    assert("BorderStyle"@ != "Angle"@);
}

proof fn lemma_parse_name_outline()
    ensures
        Token::parse_spec("Outline"@) == Ok::<Token, AssParseError>(Token::Outline),
{
    reveal_strlit("Name");
    reveal_strlit("Fontname");
    reveal_strlit("Fontsize");
    reveal_strlit("PrimaryColour");
    reveal_strlit("SecondaryColour");
    reveal_strlit("OutlineColour");
    reveal_strlit("BackColour");
    reveal_strlit("Bold");
    reveal_strlit("Italic");
    reveal_strlit("Underline");
    reveal_strlit("StrikeOut");
    reveal_strlit("ScaleX");
    reveal_strlit("ScaleY");
    reveal_strlit("Spacing");
    reveal_strlit("Angle");
    reveal_strlit("BorderStyle");
    reveal_strlit("Outline");
    assert("Outline"@.len() == 7);
    assert("Name"@.len() == 4);
    assert("Outline"@ != "Name"@);
    assert("Outline"@.len() == 7);
    assert("Fontname"@.len() == 8);
    assert("Outline"@ != "Fontname"@);
    assert("Outline"@.len() == 7);
    assert("Fontsize"@.len() == 8);
    assert("Outline"@ != "Fontsize"@);
    assert("Outline"@.len() == 7);
    assert("PrimaryColour"@.len() == 13);
    assert("Outline"@ != "PrimaryColour"@);
    assert("Outline"@.len() == 7);
    assert("SecondaryColour"@.len() == 15);
    assert("Outline"@ != "SecondaryColour"@);
    assert("Outline"@.len() == 7);
    assert("OutlineColour"@.len() == 13);
    assert("Outline"@ != "OutlineColour"@);
    assert("Outline"@.len() == 7);
    assert("BackColour"@.len() == 10);
    assert("Outline"@ != "BackColour"@);
    assert("Outline"@.len() == 7);
    assert("Bold"@.len() == 4);
    assert("Outline"@ != "Bold"@);
    assert("Outline"@.len() == 7);
    assert("Italic"@.len() == 6);
    assert("Outline"@ != "Italic"@);
    assert("Outline"@.len() == 7);
    assert("Underline"@.len() == 9);
    assert("Outline"@ != "Underline"@);
    assert("Outline"@.len() == 7);
    assert("StrikeOut"@.len() == 9);
    assert("Outline"@ != "StrikeOut"@);
    assert("Outline"@.len() == 7);
    assert("ScaleX"@.len() == 6);
    assert("Outline"@ != "ScaleX"@);
    assert("Outline"@.len() == 7);
    assert("ScaleY"@.len() == 6);
    assert("Outline"@ != "ScaleY"@);
    assert("Outline"@[0] == 'O');
    assert("Spacing"@[0] == 'S');
    assert("Outline"@ != "Spacing"@);
    assert("Outline"@.len() == 7);
    assert("Angle"@.len() == 5);
    assert("Outline"@ != "Angle"@);
    assert("Outline"@.len() == 7);
    assert("BorderStyle"@.len() == 11);
    assert("Outline"@ != "BorderStyle"@);
}

proof fn lemma_parse_name_shadow()
    ensures
        Token::parse_spec("Shadow"@) == Ok::<Token, AssParseError>(Token::Shadow),
{
    reveal_strlit("Name");
    reveal_strlit("Fontname");
    reveal_strlit("Fontsize");
    reveal_strlit("PrimaryColour");
    reveal_strlit("SecondaryColour");
    reveal_strlit("OutlineColour");
    reveal_strlit("BackColour");
    reveal_strlit("Bold");
    reveal_strlit("Italic");
    reveal_strlit("Underline");
    reveal_strlit("StrikeOut");
    reveal_strlit("ScaleX");
    reveal_strlit("ScaleY");
    reveal_strlit("Spacing");
    reveal_strlit("Angle");
    reveal_strlit("BorderStyle");
    reveal_strlit("Outline");
    reveal_strlit("Shadow");
    assert("Shadow"@.len() == 6);
    assert("Name"@.len() == 4);
    assert("Shadow"@ != "Name"@);
    assert("Shadow"@.len() == 6);
    assert("Fontname"@.len() == 8);
    assert("Shadow"@ != "Fontname"@);
    assert("Shadow"@.len() == 6);
    assert("Fontsize"@.len() == 8);
    assert("Shadow"@ != "Fontsize"@);
    assert("Shadow"@.len() == 6);
    assert("PrimaryColour"@.len() == 13);
    assert("Shadow"@ != "PrimaryColour"@);
    assert("Shadow"@.len() == 6);
    assert("SecondaryColour"@.len() == 15);
    assert("Shadow"@ != "SecondaryColour"@);
    assert("Shadow"@.len() == 6);
    assert("OutlineColour"@.len() == 13);
    assert("Shadow"@ != "OutlineColour"@);
    assert("Shadow"@.len() == 6);
    assert("BackColour"@.len() == 10);
    assert("Shadow"@ != "BackColour"@);
    assert("Shadow"@.len() == 6);
    assert("Bold"@.len() == 4);
    assert("Shadow"@ != "Bold"@);
    assert("Shadow"@[0] == 'S');
    assert("Italic"@[0] == 'I');
    assert("Shadow"@ != "Italic"@);
    assert("Shadow"@.len() == 6);
    assert("Underline"@.len() == 9);
    assert("Shadow"@ != "Underline"@);
    assert("Shadow"@.len() == 6);
    assert("StrikeOut"@.len() == 9);
    assert("Shadow"@ != "StrikeOut"@);
    assert("Shadow"@[1] == 'h');
    assert("ScaleX"@[1] == 'c');
    assert("Shadow"@ != "ScaleX"@);
    assert("Shadow"@[1] == 'h');
    assert("ScaleY"@[1] == 'c');
    assert("Shadow"@ != "ScaleY"@);
    assert("Shadow"@.len() == 6);
    assert("Spacing"@.len() == 7);
    assert("Shadow"@ != "Spacing"@);
    assert("Shadow"@.len() == 6);
    assert("Angle"@.len() == 5);
    assert("Shadow"@ != "Angle"@);
    assert("Shadow"@.len() == 6);
    assert("BorderStyle"@.len() == 11);
    assert("Shadow"@ != "BorderStyle"@);
    assert("Shadow"@.len() == 6);
    assert("Outline"@.len() == 7);
    assert("Shadow"@ != "Outline"@);
}

proof fn lemma_parse_name_alignment()
    ensures
        Token::parse_spec("Alignment"@) == Ok::<Token, AssParseError>(Token::Alignment),
{
    reveal_strlit("Name");
    reveal_strlit("Fontname");
    reveal_strlit("Fontsize");
    reveal_strlit("PrimaryColour");
    reveal_strlit("SecondaryColour");
    reveal_strlit("OutlineColour");
    reveal_strlit("BackColour");
    reveal_strlit("Bold");
    reveal_strlit("Italic");
    reveal_strlit("Underline");
    reveal_strlit("StrikeOut");
    reveal_strlit("ScaleX");
    reveal_strlit("ScaleY");
    reveal_strlit("Spacing");
    reveal_strlit("Angle");
    reveal_strlit("BorderStyle");
    reveal_strlit("Outline");
    reveal_strlit("Shadow");
    reveal_strlit("Alignment");
    assert("Alignment"@.len() == 9);
    assert("Name"@.len() == 4);
    assert("Alignment"@ != "Name"@);
    assert("Alignment"@.len() == 9);
    assert("Fontname"@.len() == 8);
    assert("Alignment"@ != "Fontname"@);
    assert("Alignment"@.len() == 9);
    assert("Fontsize"@.len() == 8);
    assert("Alignment"@ != "Fontsize"@);
    assert("Alignment"@.len() == 9);
    assert("PrimaryColour"@.len() == 13);
    assert("Alignment"@ != "PrimaryColour"@);
    assert("Alignment"@.len() == 9);
    assert("SecondaryColour"@.len() == 15);
    assert("Alignment"@ != "SecondaryColour"@);
    assert("Alignment"@.len() == 9);
    assert("OutlineColour"@.len() == 13);
    assert("Alignment"@ != "OutlineColour"@);
    assert("Alignment"@.len() == 9);
    assert("BackColour"@.len() == 10);
    assert("Alignment"@ != "BackColour"@);
    assert("Alignment"@.len() == 9);
    assert("Bold"@.len() == 4);
    assert("Alignment"@ != "Bold"@);
    assert("Alignment"@.len() == 9);
    assert("Italic"@.len() == 6);
    assert("Alignment"@ != "Italic"@);
    assert("Alignment"@[0] == 'A');
    assert("Underline"@[0] == 'U');
    assert("Alignment"@ != "Underline"@);
    assert("Alignment"@[0] == 'A');
    assert("StrikeOut"@[0] == 'S');
    assert("Alignment"@ != "StrikeOut"@);
    assert("Alignment"@.len() == 9);
    assert("ScaleX"@.len() == 6);
    assert("Alignment"@ != "ScaleX"@);
    assert("Alignment"@.len() == 9);
    assert("ScaleY"@.len() == 6);
    assert("Alignment"@ != "ScaleY"@);
    assert("Alignment"@.len() == 9);
    assert("Spacing"@.len() == 7);
    assert("Alignment"@ != "Spacing"@);
    assert("Alignment"@.len() == 9);
    assert("Angle"@.len() == 5);
    assert("Alignment"@ != "Angle"@);
    assert("Alignment"@.len() == 9);
    assert("BorderStyle"@.len() == 11);
    assert("Alignment"@ != "BorderStyle"@);
    assert("Alignment"@.len() == 9);
    assert("Outline"@.len() == 7);
    assert("Alignment"@ != "Outline"@);
    assert("Alignment"@.len() == 9);
    assert("Shadow"@.len() == 6);
    assert("Alignment"@ != "Shadow"@);
}

proof fn lemma_parse_name_marginl()
    ensures
        Token::parse_spec("MarginL"@) == Ok::<Token, AssParseError>(Token::MarginL),
{
    reveal_strlit("Name");
    reveal_strlit("Fontname");
    reveal_strlit("Fontsize");
    reveal_strlit("PrimaryColour");
    reveal_strlit("SecondaryColour");
    reveal_strlit("OutlineColour");
    reveal_strlit("BackColour");
    reveal_strlit("Bold");
    reveal_strlit("Italic");
    reveal_strlit("Underline");
    reveal_strlit("StrikeOut");
    reveal_strlit("ScaleX");
    reveal_strlit("ScaleY");
    reveal_strlit("Spacing");
    reveal_strlit("Angle");
    reveal_strlit("BorderStyle");
    reveal_strlit("Outline");
    reveal_strlit("Shadow");
    reveal_strlit("Alignment");
    reveal_strlit("MarginL");
    assert("MarginL"@.len() == 7);
    assert("Name"@.len() == 4);
    assert("MarginL"@ != "Name"@);
    assert("MarginL"@.len() == 7);
    assert("Fontname"@.len() == 8);
    assert("MarginL"@ != "Fontname"@);
    assert("MarginL"@.len() == 7);
    assert("Fontsize"@.len() == 8);
    assert("MarginL"@ != "Fontsize"@);
    assert("MarginL"@.len() == 7);
    assert("PrimaryColour"@.len() == 13);
    assert("MarginL"@ != "PrimaryColour"@);
    assert("MarginL"@.len() == 7);
    assert("SecondaryColour"@.len() == 15);
    assert("MarginL"@ != "SecondaryColour"@);
    assert("MarginL"@.len() == 7);
    assert("OutlineColour"@.len() == 13);
    assert("MarginL"@ != "OutlineColour"@);
    assert("MarginL"@.len() == 7);
    assert("BackColour"@.len() == 10);
    assert("MarginL"@ != "BackColour"@);
    assert("MarginL"@.len() == 7);
    assert("Bold"@.len() == 4);
    assert("MarginL"@ != "Bold"@);
    assert("MarginL"@.len() == 7);
    assert("Italic"@.len() == 6);
    assert("MarginL"@ != "Italic"@);
    assert("MarginL"@.len() == 7);
    assert("Underline"@.len() == 9);
    assert("MarginL"@ != "Underline"@);
    assert("MarginL"@.len() == 7);
    assert("StrikeOut"@.len() == 9);
    assert("MarginL"@ != "StrikeOut"@);
    assert("MarginL"@.len() == 7);
    assert("ScaleX"@.len() == 6);
    assert("MarginL"@ != "ScaleX"@);
    assert("MarginL"@.len() == 7);
    assert("ScaleY"@.len() == 6);
    assert("MarginL"@ != "ScaleY"@);
    assert("MarginL"@[0] == 'M');
    assert("Spacing"@[0] == 'S');
    assert("MarginL"@ != "Spacing"@);
    assert("MarginL"@.len() == 7);
    assert("Angle"@.len() == 5);
    assert("MarginL"@ != "Angle"@);
    assert("MarginL"@.len() == 7);
    assert("BorderStyle"@.len() == 11);
    assert("MarginL"@ != "BorderStyle"@);
    assert("MarginL"@[0] == 'M');
    assert("Outline"@[0] == 'O');
    assert("MarginL"@ != "Outline"@);
    assert("MarginL"@.len() == 7);
    assert("Shadow"@.len() == 6);
    assert("MarginL"@ != "Shadow"@);
    assert("MarginL"@.len() == 7);
    assert("Alignment"@.len() == 9);
    assert("MarginL"@ != "Alignment"@);
}

proof fn lemma_parse_name_marginr()
    ensures
        Token::parse_spec("MarginR"@) == Ok::<Token, AssParseError>(Token::MarginR),
{
    reveal_strlit("Name");
    reveal_strlit("Fontname");
    reveal_strlit("Fontsize");
    reveal_strlit("PrimaryColour");
    reveal_strlit("SecondaryColour");
    reveal_strlit("OutlineColour");
    reveal_strlit("BackColour");
    reveal_strlit("Bold");
    reveal_strlit("Italic");
    reveal_strlit("Underline");
    reveal_strlit("StrikeOut");
    reveal_strlit("ScaleX");
    reveal_strlit("ScaleY");
    reveal_strlit("Spacing");
    reveal_strlit("Angle");
    reveal_strlit("BorderStyle");
    reveal_strlit("Outline");
    reveal_strlit("Shadow");
    reveal_strlit("Alignment");
    reveal_strlit("MarginL");
    reveal_strlit("MarginR");
    assert("MarginR"@.len() == 7);
    assert("Name"@.len() == 4);
    assert("MarginR"@ != "Name"@);
    assert("MarginR"@.len() == 7);
    assert("Fontname"@.len() == 8);
    assert("MarginR"@ != "Fontname"@);
    assert("MarginR"@.len() == 7);
    assert("Fontsize"@.len() == 8);
    assert("MarginR"@ != "Fontsize"@);
    assert("MarginR"@.len() == 7);
    assert("PrimaryColour"@.len() == 13);
    assert("MarginR"@ != "PrimaryColour"@);
    assert("MarginR"@.len() == 7);
    assert("SecondaryColour"@.len() == 15);
    assert("MarginR"@ != "SecondaryColour"@);
    assert("MarginR"@.len() == 7);
    assert("OutlineColour"@.len() == 13);
    assert("MarginR"@ != "OutlineColour"@);
    assert("MarginR"@.len() == 7);
    assert("BackColour"@.len() == 10);
    assert("MarginR"@ != "BackColour"@);
    assert("MarginR"@.len() == 7);
    assert("Bold"@.len() == 4);
    assert("MarginR"@ != "Bold"@);
    assert("MarginR"@.len() == 7);
    assert("Italic"@.len() == 6);
    assert("MarginR"@ != "Italic"@);
    assert("MarginR"@.len() == 7);
    assert("Underline"@.len() == 9);
    assert("MarginR"@ != "Underline"@);
    assert("MarginR"@.len() == 7);
    assert("StrikeOut"@.len() == 9);
    assert("MarginR"@ != "StrikeOut"@);
    assert("MarginR"@.len() == 7);
    assert("ScaleX"@.len() == 6);
    assert("MarginR"@ != "ScaleX"@);
    assert("MarginR"@.len() == 7);
    assert("ScaleY"@.len() == 6);
    assert("MarginR"@ != "ScaleY"@);
    assert("MarginR"@[0] == 'M');
    assert("Spacing"@[0] == 'S');
    assert("MarginR"@ != "Spacing"@);
    assert("MarginR"@.len() == 7);
    assert("Angle"@.len() == 5);
    assert("MarginR"@ != "Angle"@);
    assert("MarginR"@.len() == 7);
    assert("BorderStyle"@.len() == 11);
    assert("MarginR"@ != "BorderStyle"@);
    assert("MarginR"@[0] == 'M');
    assert("Outline"@[0] == 'O');
    assert("MarginR"@ != "Outline"@);
    assert("MarginR"@.len() == 7);
    assert("Shadow"@.len() == 6);
    assert("MarginR"@ != "Shadow"@);
    assert("MarginR"@.len() == 7);
    assert("Alignment"@.len() == 9);
    assert("MarginR"@ != "Alignment"@);
    assert("MarginR"@[6] == 'R');
    assert("MarginL"@[6] == 'L');
    assert("MarginR"@ != "MarginL"@);
}

proof fn lemma_parse_name_marginv()
    ensures
        Token::parse_spec("MarginV"@) == Ok::<Token, AssParseError>(Token::MarginV),
{
    reveal_strlit("Name");
    reveal_strlit("Fontname");
    reveal_strlit("Fontsize");
    reveal_strlit("PrimaryColour");
    reveal_strlit("SecondaryColour");
    reveal_strlit("OutlineColour");
    reveal_strlit("BackColour");
    reveal_strlit("Bold");
    reveal_strlit("Italic");
    reveal_strlit("Underline");
    reveal_strlit("StrikeOut");
    reveal_strlit("ScaleX");
    reveal_strlit("ScaleY");
    reveal_strlit("Spacing");
    reveal_strlit("Angle");
    reveal_strlit("BorderStyle");
    reveal_strlit("Outline");
    reveal_strlit("Shadow");
    reveal_strlit("Alignment");
    reveal_strlit("MarginL");
    reveal_strlit("MarginR");
    reveal_strlit("MarginV");
    assert("MarginV"@.len() == 7);
    assert("Name"@.len() == 4);
    assert("MarginV"@ != "Name"@);
    assert("MarginV"@.len() == 7);
    assert("Fontname"@.len() == 8);
    assert("MarginV"@ != "Fontname"@);
    assert("MarginV"@.len() == 7);
    assert("Fontsize"@.len() == 8);
    assert("MarginV"@ != "Fontsize"@);
    assert("MarginV"@.len() == 7);
    assert("PrimaryColour"@.len() == 13);
    assert("MarginV"@ != "PrimaryColour"@);
    assert("MarginV"@.len() == 7);
    assert("SecondaryColour"@.len() == 15);
    assert("MarginV"@ != "SecondaryColour"@);
    assert("MarginV"@.len() == 7);
    assert("OutlineColour"@.len() == 13);
    assert("MarginV"@ != "OutlineColour"@);
    assert("MarginV"@.len() == 7);
    assert("BackColour"@.len() == 10);
    assert("MarginV"@ != "BackColour"@);
    assert("MarginV"@.len() == 7);
    assert("Bold"@.len() == 4);
    assert("MarginV"@ != "Bold"@);
    assert("MarginV"@.len() == 7);
    assert("Italic"@.len() == 6);
    assert("MarginV"@ != "Italic"@);
    assert("MarginV"@.len() == 7);
    assert("Underline"@.len() == 9);
    assert("MarginV"@ != "Underline"@);
    assert("MarginV"@.len() == 7);
    assert("StrikeOut"@.len() == 9);
    assert("MarginV"@ != "StrikeOut"@);
    assert("MarginV"@.len() == 7);
    assert("ScaleX"@.len() == 6);
    assert("MarginV"@ != "ScaleX"@);
    assert("MarginV"@.len() == 7);
    assert("ScaleY"@.len() == 6);
    assert("MarginV"@ != "ScaleY"@);
    assert("MarginV"@[0] == 'M');
    assert("Spacing"@[0] == 'S');
    assert("MarginV"@ != "Spacing"@);
    assert("MarginV"@.len() == 7);
    assert("Angle"@.len() == 5);
    assert("MarginV"@ != "Angle"@);
    assert("MarginV"@.len() == 7);
    assert("BorderStyle"@.len() == 11);
    assert("MarginV"@ != "BorderStyle"@);
    assert("MarginV"@[0] == 'M');
    assert("Outline"@[0] == 'O');
    assert("MarginV"@ != "Outline"@);
    assert("MarginV"@.len() == 7);
    assert("Shadow"@.len() == 6);
    assert("MarginV"@ != "Shadow"@);
    assert("MarginV"@.len() == 7);
    assert("Alignment"@.len() == 9);
    assert("MarginV"@ != "Alignment"@);
    assert("MarginV"@[6] == 'V');
    assert("MarginL"@[6] == 'L');
    assert("MarginV"@ != "MarginL"@);
    assert("MarginV"@[6] == 'V');
    assert("MarginR"@[6] == 'R');
    assert("MarginV"@ != "MarginR"@);
}

proof fn lemma_parse_name_encoding()
    ensures
        Token::parse_spec("Encoding"@) == Ok::<Token, AssParseError>(Token::Encoding),
{
    reveal_strlit("Name");
    reveal_strlit("Fontname");
    reveal_strlit("Fontsize");
    reveal_strlit("PrimaryColour");
    reveal_strlit("SecondaryColour");
    reveal_strlit("OutlineColour");
    reveal_strlit("BackColour");
    reveal_strlit("Bold");
    reveal_strlit("Italic");
    reveal_strlit("Underline");
    reveal_strlit("StrikeOut");
    reveal_strlit("ScaleX");
    reveal_strlit("ScaleY");
    reveal_strlit("Spacing");
    reveal_strlit("Angle");
    reveal_strlit("BorderStyle");
    reveal_strlit("Outline");
    reveal_strlit("Shadow");
    reveal_strlit("Alignment");
    reveal_strlit("MarginL");
    reveal_strlit("MarginR");
    reveal_strlit("MarginV");
    reveal_strlit("Encoding");
    assert("Encoding"@.len() == 8);
    assert("Name"@.len() == 4);
    assert("Encoding"@ != "Name"@);
    assert("Encoding"@[0] == 'E');
    assert("Fontname"@[0] == 'F');
    assert("Encoding"@ != "Fontname"@);
    assert("Encoding"@[0] == 'E');
    assert("Fontsize"@[0] == 'F');
    assert("Encoding"@ != "Fontsize"@);
    assert("Encoding"@.len() == 8);
    assert("PrimaryColour"@.len() == 13);
    assert("Encoding"@ != "PrimaryColour"@);
    assert("Encoding"@.len() == 8);
    assert("SecondaryColour"@.len() == 15);
    assert("Encoding"@ != "SecondaryColour"@);
    assert("Encoding"@.len() == 8);
    assert("OutlineColour"@.len() == 13);
    assert("Encoding"@ != "OutlineColour"@);
    assert("Encoding"@.len() == 8);
    assert("BackColour"@.len() == 10);
    assert("Encoding"@ != "BackColour"@);
    assert("Encoding"@.len() == 8);
    assert("Bold"@.len() == 4);
    assert("Encoding"@ != "Bold"@);
    assert("Encoding"@.len() == 8);
    assert("Italic"@.len() == 6);
    assert("Encoding"@ != "Italic"@);
    assert("Encoding"@.len() == 8);
    assert("Underline"@.len() == 9);
    assert("Encoding"@ != "Underline"@);
    assert("Encoding"@.len() == 8);
    assert("StrikeOut"@.len() == 9);
    assert("Encoding"@ != "StrikeOut"@);
    assert("Encoding"@.len() == 8);
    assert("ScaleX"@.len() == 6);
    assert("Encoding"@ != "ScaleX"@);
    assert("Encoding"@.len() == 8);
    assert("ScaleY"@.len() == 6);
    assert("Encoding"@ != "ScaleY"@);
    assert("Encoding"@.len() == 8);
    assert("Spacing"@.len() == 7);
    assert("Encoding"@ != "Spacing"@);
    assert("Encoding"@.len() == 8);
    assert("Angle"@.len() == 5);
    assert("Encoding"@ != "Angle"@);
    assert("Encoding"@.len() == 8);
    assert("BorderStyle"@.len() == 11);
    assert("Encoding"@ != "BorderStyle"@);
    assert("Encoding"@.len() == 8);
    assert("Outline"@.len() == 7);
    assert("Encoding"@ != "Outline"@);
    assert("Encoding"@.len() == 8);
    assert("Shadow"@.len() == 6);
    assert("Encoding"@ != "Shadow"@);
    assert("Encoding"@.len() == 8);
    assert("Alignment"@.len() == 9);
    assert("Encoding"@ != "Alignment"@);
    assert("Encoding"@.len() == 8);
    assert("MarginL"@.len() == 7);
    assert("Encoding"@ != "MarginL"@);
    assert("Encoding"@.len() == 8);
    assert("MarginR"@.len() == 7);
    assert("Encoding"@ != "MarginR"@);
    assert("Encoding"@.len() == 8);
    assert("MarginV"@.len() == 7);
    assert("Encoding"@ != "MarginV"@);
}

/// Every token's text form is a run of letters: non-empty, free of commas
/// and whitespace, already trimmed, and read back as the same token.
#[verifier::rlimit(100)]
#[verifier::spinoff_prover]
pub proof fn lemma_token_name_facts(t: Token)
    ensures
        t.name_spec().len() >= 1,
        forall|i: int| 0 <= i < t.name_spec().len() ==> t.name_spec()[i] != ',',
        forall|i: int|
            0 <= i < t.name_spec().len() ==> !crate::text::is_ws_char(t.name_spec()[i]),
        trim_spec(t.name_spec()) == t.name_spec(),
        Token::parse_spec(t.name_spec()) == Ok::<Token, AssParseError>(t),
{
    reveal_strlit("Name");
    reveal_strlit("Fontname");
    reveal_strlit("Fontsize");
    reveal_strlit("PrimaryColour");
    reveal_strlit("SecondaryColour");
    reveal_strlit("OutlineColour");
    reveal_strlit("BackColour");
    reveal_strlit("Bold");
    reveal_strlit("Italic");
    reveal_strlit("Underline");
    reveal_strlit("StrikeOut");
    reveal_strlit("ScaleX");
    reveal_strlit("ScaleY");
    reveal_strlit("Spacing");
    reveal_strlit("Angle");
    reveal_strlit("BorderStyle");
    reveal_strlit("Outline");
    reveal_strlit("Shadow");
    reveal_strlit("Alignment");
    reveal_strlit("MarginL");
    reveal_strlit("MarginR");
    reveal_strlit("MarginV");
    reveal_strlit("Encoding");
    match t {
        Token::Name => {
            lemma_parse_name_name();
        },
        Token::Fontname => {
            lemma_parse_name_fontname();
        },
        Token::Fontsize => {
            lemma_parse_name_fontsize();
        },
        Token::PrimaryColour => {
            lemma_parse_name_primarycolour();
        },
        Token::SecondaryColour => {
            lemma_parse_name_secondarycolour();
        },
        Token::OutlineColour => {
            lemma_parse_name_outlinecolour();
        },
        Token::BackColour => {
            lemma_parse_name_backcolour();
        },
        Token::Bold => {
            lemma_parse_name_bold();
        },
        Token::Italic => {
            lemma_parse_name_italic();
        },
        Token::Underline => {
            lemma_parse_name_underline();
        },
        Token::StrikeOut => {
            lemma_parse_name_strikeout();
        },
        Token::ScaleX => {
            lemma_parse_name_scalex();
        },
        Token::ScaleY => {
            lemma_parse_name_scaley();
        },
        Token::Spacing => {
            lemma_parse_name_spacing();
        },
        Token::Angle => {
            lemma_parse_name_angle();
        },
        Token::BorderStyle => {
            lemma_parse_name_borderstyle();
        },
        Token::Outline => {
            lemma_parse_name_outline();
        },
        Token::Shadow => {
            lemma_parse_name_shadow();
        },
        Token::Alignment => {
            lemma_parse_name_alignment();
        },
        Token::MarginL => {
            lemma_parse_name_marginl();
        },
        Token::MarginR => {
            lemma_parse_name_marginr();
        },
        Token::MarginV => {
            lemma_parse_name_marginv();
        },
        Token::Encoding => {
            lemma_parse_name_encoding();
        },
    }
}

/// The column names of a format schema, in order.
pub open spec fn names_of(ts: Seq<Token>) -> Seq<Seq<char>> {
    ts.map_values(|t: Token| t.name_spec())
}

/// The text a format schema puts after `Format: ` on its line.
pub open spec fn format_data_spec(ts: Seq<Token>) -> Seq<char> {
    join_spec(names_of(ts), ", "@)
}

/// Reads the comma-separated entries of a format line, trimming each entry.
pub open spec fn parse_tokens_spec(parts: Seq<Seq<char>>) -> Result<Seq<Token>, AssParseError>
    decreases parts.len(),
{
    if parts.len() == 0 {
        Ok(Seq::empty())
    } else {
        match Token::parse_spec(trim_spec(parts[0])) {
            Err(e) => Err(e),
            Ok(t) => match parse_tokens_spec(parts.subrange(1, parts.len() as int)) {
                Err(e) => Err(e),
                Ok(rest) => Ok(seq![t] + rest),
            },
        }
    }
}

/// A style format schema: the declared column order for style rows.
#[derive(Debug, Clone)]
pub struct Format(pub Vec<Token>);

impl View for Format {
    type V = Seq<Token>;

    open spec fn view(&self) -> Seq<Token> {
        self.0@
    }
}

impl Format {
    /// The canonical column order used when no format line was declared.
    pub open spec fn default_spec() -> Seq<Token> {
        seq![
            Token::Name,
            Token::Fontname,
            Token::Fontsize,
            Token::PrimaryColour,
            Token::SecondaryColour,
            Token::OutlineColour,
            Token::BackColour,
            Token::Bold,
            Token::Italic,
            Token::Underline,
            Token::StrikeOut,
            Token::ScaleX,
            Token::ScaleY,
            Token::Spacing,
            Token::Angle,
            Token::BorderStyle,
            Token::Outline,
            Token::Shadow,
            Token::Alignment,
            Token::MarginL,
            Token::MarginR,
            Token::MarginV,
            Token::Encoding,
        ]
    }

    pub fn new() -> (f: Format)
        ensures
            f@ == Seq::<Token>::empty(),
    {
        Format(Vec::new())
    }

    pub fn push(&mut self, t: Token)
        ensures
            final(self)@ == old(self)@.push(t),
    {
        self.0.push(t);
    }

    /// What a format line's data decodes to: each comma-separated entry is
    /// trimmed and must name a column.
    pub open spec fn parse_spec(s: Seq<char>) -> Result<Seq<Token>, AssParseError> {
        parse_tokens_spec(split_spec(s, ','))
    }

    pub fn parse(s: &Vec<char>) -> (r: Result<Format, AssParseError>)
        ensures
            match r {
                Ok(f) => Format::parse_spec(s@) == Ok::<Seq<Token>, AssParseError>(f@),
                Err(e) => Format::parse_spec(s@) == Err::<Seq<Token>, AssParseError>(e),
            },
    {
        let parts = split_chars(s, ',');
        let ghost vs = views_of(parts@);
        let mut toks: Vec<Token> = Vec::new();
        let mut k: usize = 0;
        proof {
            assert(vs.subrange(0, vs.len() as int) =~= vs);
        }
        while k < parts.len()
            invariant
                0 <= k <= parts@.len(),
                vs == views_of(parts@),
                vs == split_spec(s@, ','),
                parse_tokens_spec(vs) == match parse_tokens_spec(
                    vs.subrange(k as int, vs.len() as int),
                ) {
                    Err(e) => Err::<Seq<Token>, AssParseError>(e),
                    Ok(rest) => Ok::<Seq<Token>, AssParseError>(toks@ + rest),
                },
            decreases parts@.len() - k,
        {
            let trimmed = trim_chars(&parts[k]);
            let ghost sub = vs.subrange(k as int, vs.len() as int);
            proof {
                assert(sub[0] == vs[k as int]);
                assert(vs[k as int] == parts@[k as int]@);
                assert(sub.subrange(1, sub.len() as int) =~= vs.subrange(
                    k as int + 1,
                    vs.len() as int,
                ));
            }
            match Token::parse(&trimmed) {
                Ok(t) => {
                    proof {
                        match parse_tokens_spec(vs.subrange(k as int + 1, vs.len() as int)) {
                            Err(e) => {},
                            Ok(rest) => {
                                assert(toks@ + (seq![t] + rest) =~= toks@.push(t) + rest);
                            },
                        }
                    }
                    toks.push(t);
                },
                Err(e) => {
                    proof {
                        assert(parse_tokens_spec(sub) == Err::<Seq<Token>, AssParseError>(e));
                    }
                    return Err(e);
                },
            }
            k = k + 1;
        }
        proof {
            assert(vs.subrange(vs.len() as int, vs.len() as int) =~= Seq::<Seq<char>>::empty());
            assert(toks@ + Seq::<Token>::empty() =~= toks@);
        }
        Ok(Format(toks))
    }

    /// The whole format line: `Format: ` then the column names separated by
    /// comma and space.
    pub open spec fn render_spec(ts: Seq<Token>) -> Seq<char> {
        "Format: "@ + format_data_spec(ts)
    }

    pub fn push_render(&self, out: &mut Vec<char>)
        ensures
            final(out)@ == old(out)@ + Format::render_spec(self@),
    {
        push_str(out, "Format: ");
        let n = self.0.len();
        let mut k: usize = 0;
        proof {
            assert(names_of(self@).subrange(0, 0) =~= Seq::<Seq<char>>::empty());
            assert(old(out)@ + "Format: "@ + Seq::<char>::empty() =~= old(out)@ + "Format: "@);
        }
        while k < n
            invariant
                0 <= k <= n,
                n == self@.len(),
                out@ == old(out)@ + "Format: "@ + join_spec(
                    names_of(self@).subrange(0, k as int),
                    ", "@,
                ),
            decreases n - k,
        {
            let ghost names = names_of(self@);
            proof {
                assert(names.subrange(0, k as int + 1) =~= names.subrange(0, k as int).push(
                    names[k as int],
                ));
                lemma_join_push(names.subrange(0, k as int), names[k as int], ", "@);
            }
            if k > 0 {
                push_str(out, ", ");
            }
            self.0[k].push_name(out);
            proof {
                if k > 0 {
                    assert(old(out)@ + "Format: "@ + (join_spec(
                        names.subrange(0, k as int),
                        ", "@,
                    ) + ", "@ + names[k as int]) =~= (old(out)@ + "Format: "@ + join_spec(
                        names.subrange(0, k as int),
                        ", "@,
                    )) + ", "@ + names[k as int]);
                } else {
                    assert(join_spec(names.subrange(0, 0), ", "@) =~= Seq::<char>::empty());
                    assert(old(out)@ + "Format: "@ + names[0] =~= (old(out)@ + "Format: "@
                        + Seq::<char>::empty()) + names[0]);
                }
            }
            k = k + 1;
        }
        proof {
            assert(names_of(self@).subrange(0, n as int) =~= names_of(self@));
        }
    }
}

impl Default for Format {
    /// The canonical style schema.
    fn default() -> (f: Format)
        ensures
            f@ == Format::default_spec(),
    {
        let mut v: Vec<Token> = Vec::new();
        v.push(Token::Name);
        v.push(Token::Fontname);
        v.push(Token::Fontsize);
        v.push(Token::PrimaryColour);
        v.push(Token::SecondaryColour);
        v.push(Token::OutlineColour);
        v.push(Token::BackColour);
        v.push(Token::Bold);
        v.push(Token::Italic);
        v.push(Token::Underline);
        v.push(Token::StrikeOut);
        v.push(Token::ScaleX);
        v.push(Token::ScaleY);
        v.push(Token::Spacing);
        v.push(Token::Angle);
        v.push(Token::BorderStyle);
        v.push(Token::Outline);
        v.push(Token::Shadow);
        v.push(Token::Alignment);
        v.push(Token::MarginL);
        v.push(Token::MarginR);
        v.push(Token::MarginV);
        v.push(Token::Encoding);
        proof {
            assert(v@ =~= Format::default_spec());
        }
        Format(v)
    }
}

/// Reading a token list only looks at the trimmed head and the tail.
proof fn lemma_parse_tokens_head(p1: Seq<Seq<char>>, p2: Seq<Seq<char>>)
    requires
        p1.len() == p2.len(),
        p1.len() >= 1,
        trim_spec(p1[0]) == trim_spec(p2[0]),
        p1.subrange(1, p1.len() as int) == p2.subrange(1, p2.len() as int),
    ensures
        parse_tokens_spec(p1) == parse_tokens_spec(p2),
{
}

/// Reading a rendered schema back yields the very token list it was
/// rendered from.
///
/// Law: style format schemas round-trip through their text form.
pub proof fn lemma_format_round_trip(ts: Seq<Token>)
    requires
        ts.len() >= 1,
    ensures
        Format::parse_spec(format_data_spec(ts)) == Ok::<Seq<Token>, AssParseError>(ts),
    decreases ts.len(),
{
    if ts.len() == 1 {
        lemma_round_trip_base(ts);
    } else {
        let rest = ts.subrange(1, ts.len() as int);
        lemma_format_round_trip(rest);
        lemma_round_trip_step(ts);
    }
}

/// A one-column schema reads back from its own name.
#[verifier::rlimit(100)]
proof fn lemma_round_trip_base(ts: Seq<Token>)
    requires
        ts.len() == 1,
    ensures
        Format::parse_spec(format_data_spec(ts)) == Ok::<Seq<Token>, AssParseError>(ts),
{
    let names = names_of(ts);
    let data = format_data_spec(ts);
    lemma_token_name_facts(ts[0]);
    assert(data == names[0]);
    lemma_split_whole(data, ',');
    let parts = split_spec(data, ',');
    assert(parts[0] == ts[0].name_spec());
    assert(parts.len() == 1);
    assert(parts.subrange(1, 1) =~= Seq::<Seq<char>>::empty());
    assert(parse_tokens_spec(Seq::<Seq<char>>::empty()) == Ok::<Seq<Token>, AssParseError>(
        Seq::<Token>::empty(),
    ));
    assert(Token::parse_spec(trim_spec(parts[0])) == Ok::<Token, AssParseError>(ts[0]));
    assert(parse_tokens_spec(parts) == Ok::<Seq<Token>, AssParseError>(
        seq![ts[0]] + Seq::<Token>::empty(),
    ));
    assert(seq![ts[0]] + Seq::<Token>::empty() =~= ts);
}

/// The inductive step: a longer schema reads back once its tail does.
#[verifier::rlimit(100)]
proof fn lemma_round_trip_step(ts: Seq<Token>)
    requires
        ts.len() >= 2,
        Format::parse_spec(format_data_spec(ts.subrange(1, ts.len() as int))) == Ok::<
            Seq<Token>,
            AssParseError,
        >(ts.subrange(1, ts.len() as int)),
    ensures
        Format::parse_spec(format_data_spec(ts)) == Ok::<Seq<Token>, AssParseError>(ts),
{
    let names = names_of(ts);
    let data = format_data_spec(ts);
    lemma_token_name_facts(ts[0]);
    let rest = ts.subrange(1, ts.len() as int);
    let rest_data = format_data_spec(rest);
    assert(names.subrange(1, names.len() as int) =~= names_of(rest));
    assert(data == names[0] + ", "@ + rest_data);
    reveal_strlit(", ");
    assert(", "@ == seq![','] + seq![' ']) by {
        assert(", "@.len() == 2);
        assert(", "@[0] == ',' && ", "@[1] == ' ');
        assert(", "@ =~= seq![','] + seq![' ']);
    }
    assert(names[0] + ", "@ + rest_data =~= names[0] + seq![','] + (seq![' '] + rest_data));
    lemma_split_app(names[0], seq![' '] + rest_data, ',');
    let tail_parts = split_spec(seq![' '] + rest_data, ',');
    assert(split_spec(data, ',') == seq![names[0]] + tail_parts);
    lemma_split_prepend(seq![' '], rest_data, ',');
    let rest_parts = split_spec(rest_data, ',');
    assert(tail_parts == seq![seq![' '] + rest_parts[0]] + rest_parts.subrange(
        1,
        rest_parts.len() as int,
    ));
    lemma_trim_prepend_ws(' ', rest_parts[0]);
    let parts = split_spec(data, ',');
    assert(parts[0] == names[0]);
    assert(parts.subrange(1, parts.len() as int) =~= tail_parts);
    assert(trim_spec(parts[0]) == ts[0].name_spec());
    assert(tail_parts[0] == seq![' '] + rest_parts[0]);
    assert(trim_spec(tail_parts[0]) == trim_spec(rest_parts[0]));
    assert(tail_parts.subrange(1, tail_parts.len() as int) =~= rest_parts.subrange(
        1,
        rest_parts.len() as int,
    ));
    lemma_parse_tokens_head(tail_parts, rest_parts);
    assert(parse_tokens_spec(tail_parts) == parse_tokens_spec(rest_parts));
    assert(parse_tokens_spec(rest_parts) == Ok::<Seq<Token>, AssParseError>(rest));
    assert(parse_tokens_spec(parts) == Ok::<Seq<Token>, AssParseError>(seq![ts[0]] + rest));
    assert(seq![ts[0]] + rest =~= ts);
}

/// A style data line must split into exactly as many comma-separated fields
/// as its schema has columns; any other count is rejected outright.
///
/// Law: style rows with the wrong field count never decode.
pub proof fn lemma_style_row_length_mismatch(s: Seq<char>, f: Option<Seq<Token>>)
    requires
        split_spec(s, ',').len() != (match f {
            Some(x) => x,
            None => Format::default_spec(),
        }).len(),
    ensures
        Style::parse_spec(s, f) == Err::<StyleV, AssParseError>(
            AssParseError::StyleNotMatchFormat,
        ),
{
}

/// The two-literal boolean of style rows: `-1` is true, `0` is false.
pub open spec fn ass_bool_parse_spec(s: Seq<char>) -> Result<bool, AssParseError> {
    if s == "-1"@ {
        Ok(true)
    } else if s == "0"@ {
        Ok(false)
    } else {
        Err(AssParseError::BadAssBool)
    }
}

/// Text form of a style-row boolean.
pub open spec fn ass_bool_str(b: bool) -> Seq<char> {
    if b {
        "-1"@
    } else {
        "0"@
    }
}

pub fn ass_bool_to_bool(s: &Vec<char>) -> (r: Result<bool, AssParseError>)
    ensures
        r == ass_bool_parse_spec(s@),
{
    if chars_eq_str(s, "-1") {
        Ok(true)
    } else if chars_eq_str(s, "0") {
        Ok(false)
    } else {
        Err(AssParseError::BadAssBool)
    }
}

pub fn bool_to_ass_bool(b: bool) -> (r: String)
    ensures
        r@ == ass_bool_str(b),
{
    if b {
        String::from_str("-1")
    } else {
        String::from_str("0")
    }
}

/// How many times `c` occurs in `s`.
pub open spec fn count_char(s: Seq<char>, c: char) -> int
    decreases s.len(),
{
    if s.len() == 0 {
        0
    } else {
        count_char(s.drop_last(), c) + (if s.last() == c {
            1int
        } else {
            0int
        })
    }
}

/// The digits of a decimal text: everything after an optional leading sign.
pub open spec fn decimal_body(s: Seq<char>) -> Seq<char> {
    if s.len() >= 1 && (s[0] == '+' || s[0] == '-') {
        s.subrange(1, s.len() as int)
    } else {
        s
    }
}

/// Every character is a digit or a decimal point.
pub open spec fn decimal_chars_ok(body: Seq<char>) -> bool {
    forall|i: int| 0 <= i < body.len() ==> is_digit_char(body[i]) || body[i] == '.'
}

/// The decimal-number texts a style row may carry in its width columns: an
/// optional sign, then digits with at most one decimal point among them.
pub open spec fn is_decimal_spec(s: Seq<char>) -> bool {
    let body = decimal_body(s);
    body.len() >= 1 && decimal_chars_ok(body) && count_char(body, '.') <= 1 && !(body.len() == 1
        && body[0] == '.')
}

/// Runtime test for [`is_decimal_spec`].
pub fn is_decimal(s: &Vec<char>) -> (b: bool)
    ensures
        b == is_decimal_spec(s@),
{
    let start: usize = if s.len() >= 1 && (s[0] == '+' || s[0] == '-') {
        1
    } else {
        0
    };
    let ghost body = decimal_body(s@);
    proof {
        if start == 0 {
            assert(s@.subrange(0, s@.len() as int) =~= s@);
        }
        assert(body == s@.subrange(start as int, s@.len() as int));
    }
    let n = s.len();
    if start == n {
        return false;
    }
    let mut dots: usize = 0;
    let mut i: usize = start;
    while i < n
        invariant
            start <= i <= n,
            n == s@.len(),
            body == decimal_body(s@),
            body == s@.subrange(start as int, s@.len() as int),
            dots <= i - start,
            count_char(s@.subrange(start as int, i as int), '.') == dots,
            forall|j: int|
                0 <= j < i - start ==> is_digit_char(body[j]) || body[j] == '.',
        decreases n - i,
    {
        let c = s[i];
        proof {
            assert(s@.subrange(start as int, i as int + 1).drop_last() =~= s@.subrange(
                start as int,
                i as int,
            ));
            assert(s@.subrange(start as int, i as int + 1).last() == s@[i as int]);
            assert(body[i - start] == s@[i as int]);
        }
        match crate::text::digit_of(c) {
            Some(_) => {
                assert(c != '.');
            },
            None => {
                if c == '.' {
                    dots = dots + 1;
                } else {
                    proof {
                        let j: int = i as int - start as int;
                        assert(0 <= j < body.len());
                        assert(!(is_digit_char(body[j]) || body[j] == '.'));
                        assert(!decimal_chars_ok(body));
                        assert(!is_decimal_spec(s@));
                    }
                    return false;
                }
            },
        }
        i = i + 1;
    }
    proof {
        assert(s@.subrange(start as int, n as int) == body);
    }
    if dots > 1 {
        return false;
    }
    if n - start == 1 && s[start] == '.' {
        proof {
            assert(body[0] == s@[start as int]);
        }
        return false;
    }
    true
}


/// Mathematical model of a style record. The three width-like columns keep
/// their decimal text verbatim.
#[verifier::ext_equal]
pub ghost struct StyleV {
    pub format: Seq<Token>,
    pub name: Seq<char>,
    pub font_name: Seq<char>,
    pub font_size: u32,
    pub primary_colour: ABGR,
    pub secondary_colour: ABGR,
    pub outline_colour: ABGR,
    pub back_colour: ABGR,
    pub bold: bool,
    pub italic: bool,
    pub underline: bool,
    pub strikeout: bool,
    pub scale_x: u32,
    pub scale_y: u32,
    pub spacing: Seq<char>,
    pub angle: u32,
    pub border_style: BorderStyle,
    pub outline: Seq<char>,
    pub shadow: Seq<char>,
    pub alignment: Alignment,
    pub margin_l: i32,
    pub margin_r: i32,
    pub margin_v: i32,
    pub encoding: Encoding,
}

/// One named visual style: typed fields plus a copy of the schema it was
/// decoded with, so the original column order survives re-serialization.
#[derive(Debug, Clone)]
pub struct Style {
    pub format: Format,
    pub name: String,
    pub font_name: String,
    pub font_size: u32,
    pub primary_colour: ABGR,
    pub secondary_colour: ABGR,
    pub outline_colour: ABGR,
    pub back_colour: ABGR,
    pub bold: bool,
    pub italic: bool,
    pub underline: bool,
    pub strikeout: bool,
    pub scale_x: u32,
    pub scale_y: u32,
    pub spacing: String,
    pub angle: u32,
    pub border_style: BorderStyle,
    pub outline: String,
    pub shadow: String,
    pub alignment: Alignment,
    pub margin_l: i32,
    pub margin_r: i32,
    pub margin_v: i32,
    pub encoding: Encoding,
}

impl View for Style {
    type V = StyleV;

    open spec fn view(&self) -> StyleV {
        StyleV {
            format: self.format@,
            name: self.name@,
            font_name: self.font_name@,
            font_size: self.font_size,
            primary_colour: self.primary_colour,
            secondary_colour: self.secondary_colour,
            outline_colour: self.outline_colour,
            back_colour: self.back_colour,
            bold: self.bold,
            italic: self.italic,
            underline: self.underline,
            strikeout: self.strikeout,
            scale_x: self.scale_x,
            scale_y: self.scale_y,
            spacing: self.spacing@,
            angle: self.angle,
            border_style: self.border_style,
            outline: self.outline@,
            shadow: self.shadow@,
            alignment: self.alignment,
            margin_l: self.margin_l,
            margin_r: self.margin_r,
            margin_v: self.margin_v,
            encoding: self.encoding,
        }
    }
}

/// View of the optional schema argument to [`Style::parse`].
pub open spec fn opt_format_view(f: Option<&Format>) -> Option<Seq<Token>> {
    match f {
        Some(x) => Some(x@),
        None => None,
    }
}

impl Style {
    /// The record every decode starts from.
    pub open spec fn default_spec() -> StyleV {
        StyleV {
            format: Format::default_spec(),
            name: "Default"@,
            font_name: "Arial"@,
            font_size: 18,
            primary_colour: ABGR { a: 0xff, b: 0xff, g: 0xff, r: 0x00 },
            secondary_colour: ABGR { a: 0x00, b: 0xff, g: 0xff, r: 0x00 },
            outline_colour: ABGR { a: 0x00, b: 0x00, g: 0x00, r: 0x00 },
            back_colour: ABGR { a: 0x00, b: 0x00, g: 0x00, r: 0x00 },
            bold: false,
            italic: false,
            underline: false,
            strikeout: false,
            scale_x: 100,
            scale_y: 100,
            spacing: "0"@,
            angle: 0,
            border_style: BorderStyle::One,
            outline: "2"@,
            shadow: "3"@,
            alignment: Alignment::BottomCenter,
            margin_l: 20,
            margin_r: 20,
            margin_v: 20,
            encoding: Encoding::Default,
        }
    }

    /// Decoding one column value into the record: numeric, color, boolean
    /// and enumerated columns go through their codecs, the width-like
    /// columns must look like decimal numbers and are kept verbatim, and the
    /// two name columns are kept verbatim.
    pub open spec fn apply_field_spec(st: StyleV, t: Token, v: Seq<char>) -> Result<
        StyleV,
        AssParseError,
    > {
        match t {
            Token::Name => Ok(StyleV { name: v, ..st }),
            Token::Fontname => Ok(StyleV { font_name: v, ..st }),
            Token::Fontsize => match u32_parse_spec(v) {
                Some(x) => Ok(StyleV { font_size: x, ..st }),
                None => Err(AssParseError::StyleNotMatchFormat),
            },
            Token::PrimaryColour => match ABGR::parse_spec(v) {
                Ok(c) => Ok(StyleV { primary_colour: c, ..st }),
                Err(e) => Err(e),
            },
            Token::SecondaryColour => match ABGR::parse_spec(v) {
                Ok(c) => Ok(StyleV { secondary_colour: c, ..st }),
                Err(e) => Err(e),
            },
            Token::OutlineColour => match ABGR::parse_spec(v) {
                Ok(c) => Ok(StyleV { outline_colour: c, ..st }),
                Err(e) => Err(e),
            },
            Token::BackColour => match ABGR::parse_spec(v) {
                Ok(c) => Ok(StyleV { back_colour: c, ..st }),
                Err(e) => Err(e),
            },
            Token::Bold => match ass_bool_parse_spec(v) {
                Ok(b) => Ok(StyleV { bold: b, ..st }),
                Err(e) => Err(e),
            },
            Token::Italic => match ass_bool_parse_spec(v) {
                Ok(b) => Ok(StyleV { italic: b, ..st }),
                Err(e) => Err(e),
            },
            Token::Underline => match ass_bool_parse_spec(v) {
                Ok(b) => Ok(StyleV { underline: b, ..st }),
                Err(e) => Err(e),
            },
            Token::StrikeOut => match ass_bool_parse_spec(v) {
                Ok(b) => Ok(StyleV { strikeout: b, ..st }),
                Err(e) => Err(e),
            },
            Token::ScaleX => match u32_parse_spec(v) {
                Some(x) => Ok(StyleV { scale_x: x, ..st }),
                None => Err(AssParseError::StyleNotMatchFormat),
            },
            Token::ScaleY => match u32_parse_spec(v) {
                Some(x) => Ok(StyleV { scale_y: x, ..st }),
                None => Err(AssParseError::StyleNotMatchFormat),
            },
            Token::Spacing => if is_decimal_spec(v) {
                Ok(StyleV { spacing: v, ..st })
            } else {
                Err(AssParseError::StyleNotMatchFormat)
            },
            Token::Angle => match u32_parse_spec(v) {
                Some(x) => Ok(StyleV { angle: x, ..st }),
                None => Err(AssParseError::StyleNotMatchFormat),
            },
            Token::BorderStyle => match BorderStyle::parse_spec(v) {
                Ok(b) => Ok(StyleV { border_style: b, ..st }),
                Err(e) => Err(e),
            },
            Token::Outline => if is_decimal_spec(v) {
                Ok(StyleV { outline: v, ..st })
            } else {
                Err(AssParseError::StyleNotMatchFormat)
            },
            Token::Shadow => if is_decimal_spec(v) {
                Ok(StyleV { shadow: v, ..st })
            } else {
                Err(AssParseError::StyleNotMatchFormat)
            },
            Token::Alignment => match Alignment::parse_spec(v) {
                Ok(a) => Ok(StyleV { alignment: a, ..st }),
                Err(e) => Err(e),
            },
            Token::MarginL => match i32_parse_spec(v) {
                Some(x) => Ok(StyleV { margin_l: x, ..st }),
                None => Err(AssParseError::StyleNotMatchFormat),
            },
            Token::MarginR => match i32_parse_spec(v) {
                Some(x) => Ok(StyleV { margin_r: x, ..st }),
                None => Err(AssParseError::StyleNotMatchFormat),
            },
            Token::MarginV => match i32_parse_spec(v) {
                Some(x) => Ok(StyleV { margin_v: x, ..st }),
                None => Err(AssParseError::StyleNotMatchFormat),
            },
            Token::Encoding => match Encoding::parse_spec(v) {
                Ok(en) => Ok(StyleV { encoding: en, ..st }),
                Err(e) => Err(e),
            },
        }
    }

    /// Decoding the column values in schema order; the first failing column
    /// decides the error.
    pub open spec fn decode_cols_spec(
        st: StyleV,
        fmt: Seq<Token>,
        vals: Seq<Seq<char>>,
    ) -> Result<StyleV, AssParseError>
        decreases fmt.len(),
    {
        if fmt.len() == 0 {
            Ok(st)
        } else {
            match Style::apply_field_spec(st, fmt[0], vals[0]) {
                Err(e) => Err(e),
                Ok(st2) => Style::decode_cols_spec(
                    st2,
                    fmt.subrange(1, fmt.len() as int),
                    vals.subrange(1, vals.len() as int),
                ),
            }
        }
    }

    /// What a style data line decodes to under a schema: the line must split
    /// into exactly as many comma-separated fields as the schema has
    /// columns, and each field goes through its column codec.
    pub open spec fn parse_spec(s: Seq<char>, f: Option<Seq<Token>>) -> Result<
        StyleV,
        AssParseError,
    > {
        let fmt = match f {
            Some(x) => x,
            None => Format::default_spec(),
        };
        let st0 = StyleV { format: fmt, ..Style::default_spec() };
        let fields = split_spec(s, ',');
        if fields.len() != fmt.len() {
            Err(AssParseError::StyleNotMatchFormat)
        } else {
            Style::decode_cols_spec(st0, fmt, fields)
        }
    }

    /// Decodes one column value into the record in place.
    #[verifier::rlimit(100)]
    fn apply_field(st: &mut Style, tok: Token, value: &Vec<char>) -> (r: Result<
        (),
        AssParseError,
    >)
        ensures
            match r {
                Ok(_) => Style::apply_field_spec(old(st)@, tok, value@) == Ok::<
                    StyleV,
                    AssParseError,
                >(final(st)@),
                Err(e) => Style::apply_field_spec(old(st)@, tok, value@) == Err::<
                    StyleV,
                    AssParseError,
                >(e),
            },
    {
        match tok {
            Token::Name => {
                st.name = chars_to_string(value);
                proof {
                    assert(Style::apply_field_spec(old(st)@, tok, value@) == Ok::<
                        StyleV,
                        AssParseError,
                        >(st@)) by {
                        assert(st@ =~= StyleV { name: value@, ..old(st)@ });
                    }
                }
                return Ok(());
            },
            Token::Fontname => {
                st.font_name = chars_to_string(value);
                proof {
                    assert(Style::apply_field_spec(old(st)@, tok, value@) == Ok::<
                        StyleV,
                        AssParseError,
                        >(st@)) by {
                        assert(st@ =~= StyleV { font_name: value@, ..old(st)@ });
                    }
                }
                return Ok(());
            },
            Token::Fontsize => {
                match parse_u32_chars(value) {
                    Some(x) => {
                        st.font_size = x;
                        proof {
                            assert(Style::apply_field_spec(old(st)@, tok, value@) == Ok::<
                                StyleV,
                                AssParseError,
                                >(st@)) by {
                                assert(st@ =~= StyleV { font_size: x, ..old(st)@ });
                            }
                        }
                        return Ok(());
                    },
                    None => {
                        return Err(AssParseError::StyleNotMatchFormat);
                    },
                }
            },
            Token::PrimaryColour => {
                match ABGR::parse(value) {
                    Ok(x) => {
                        st.primary_colour = x;
                        proof {
                            assert(Style::apply_field_spec(old(st)@, tok, value@) == Ok::<
                                StyleV,
                                AssParseError,
                                >(st@)) by {
                                assert(st@ =~= StyleV { primary_colour: x, ..old(st)@ });
                            }
                        }
                        return Ok(());
                    },
                    Err(e) => {
                        return Err(e);
                    },
                }
            },
            Token::SecondaryColour => {
                match ABGR::parse(value) {
                    Ok(x) => {
                        st.secondary_colour = x;
                        proof {
                            assert(Style::apply_field_spec(old(st)@, tok, value@) == Ok::<
                                StyleV,
                                AssParseError,
                                >(st@)) by {
                                assert(st@ =~= StyleV { secondary_colour: x, ..old(st)@ });
                            }
                        }
                        return Ok(());
                    },
                    Err(e) => {
                        return Err(e);
                    },
                }
            },
            Token::OutlineColour => {
                match ABGR::parse(value) {
                    Ok(x) => {
                        st.outline_colour = x;
                        proof {
                            assert(Style::apply_field_spec(old(st)@, tok, value@) == Ok::<
                                StyleV,
                                AssParseError,
                                >(st@)) by {
                                assert(st@ =~= StyleV { outline_colour: x, ..old(st)@ });
                            }
                        }
                        return Ok(());
                    },
                    Err(e) => {
                        return Err(e);
                    },
                }
            },
            Token::BackColour => {
                match ABGR::parse(value) {
                    Ok(x) => {
                        st.back_colour = x;
                        proof {
                            assert(Style::apply_field_spec(old(st)@, tok, value@) == Ok::<
                                StyleV,
                                AssParseError,
                                >(st@)) by {
                                assert(st@ =~= StyleV { back_colour: x, ..old(st)@ });
                            }
                        }
                        return Ok(());
                    },
                    Err(e) => {
                        return Err(e);
                    },
                }
            },
            Token::Bold => {
                match ass_bool_to_bool(value) {
                    Ok(x) => {
                        st.bold = x;
                        proof {
                            assert(Style::apply_field_spec(old(st)@, tok, value@) == Ok::<
                                StyleV,
                                AssParseError,
                                >(st@)) by {
                                assert(st@ =~= StyleV { bold: x, ..old(st)@ });
                            }
                        }
                        return Ok(());
                    },
                    Err(e) => {
                        return Err(e);
                    },
                }
            },
            Token::Italic => {
                match ass_bool_to_bool(value) {
                    Ok(x) => {
                        st.italic = x;
                        proof {
                            assert(Style::apply_field_spec(old(st)@, tok, value@) == Ok::<
                                StyleV,
                                AssParseError,
                                >(st@)) by {
                                assert(st@ =~= StyleV { italic: x, ..old(st)@ });
                            }
                        }
                        return Ok(());
                    },
                    Err(e) => {
                        return Err(e);
                    },
                }
            },
            Token::Underline => {
                match ass_bool_to_bool(value) {
                    Ok(x) => {
                        st.underline = x;
                        proof {
                            assert(Style::apply_field_spec(old(st)@, tok, value@) == Ok::<
                                StyleV,
                                AssParseError,
                                >(st@)) by {
                                assert(st@ =~= StyleV { underline: x, ..old(st)@ });
                            }
                        }
                        return Ok(());
                    },
                    Err(e) => {
                        return Err(e);
                    },
                }
            },
            Token::StrikeOut => {
                match ass_bool_to_bool(value) {
                    Ok(x) => {
                        st.strikeout = x;
                        proof {
                            assert(Style::apply_field_spec(old(st)@, tok, value@) == Ok::<
                                StyleV,
                                AssParseError,
                                >(st@)) by {
                                assert(st@ =~= StyleV { strikeout: x, ..old(st)@ });
                            }
                        }
                        return Ok(());
                    },
                    Err(e) => {
                        return Err(e);
                    },
                }
            },
            Token::ScaleX => {
                match parse_u32_chars(value) {
                    Some(x) => {
                        st.scale_x = x;
                        proof {
                            assert(Style::apply_field_spec(old(st)@, tok, value@) == Ok::<
                                StyleV,
                                AssParseError,
                                >(st@)) by {
                                assert(st@ =~= StyleV { scale_x: x, ..old(st)@ });
                            }
                        }
                        return Ok(());
                    },
                    None => {
                        return Err(AssParseError::StyleNotMatchFormat);
                    },
                }
            },
            Token::ScaleY => {
                match parse_u32_chars(value) {
                    Some(x) => {
                        st.scale_y = x;
                        proof {
                            assert(Style::apply_field_spec(old(st)@, tok, value@) == Ok::<
                                StyleV,
                                AssParseError,
                                >(st@)) by {
                                assert(st@ =~= StyleV { scale_y: x, ..old(st)@ });
                            }
                        }
                        return Ok(());
                    },
                    None => {
                        return Err(AssParseError::StyleNotMatchFormat);
                    },
                }
            },
            Token::Spacing => {
                if is_decimal(value) {
                    st.spacing = chars_to_string(value);
                    proof {
                        assert(Style::apply_field_spec(old(st)@, tok, value@) == Ok::<
                            StyleV,
                            AssParseError,
                            >(st@)) by {
                            assert(st@ =~= StyleV { spacing: value@, ..old(st)@ });
                        }
                    }
                    return Ok(());
                } else {
                    return Err(AssParseError::StyleNotMatchFormat);
                }
            },
            Token::Angle => {
                match parse_u32_chars(value) {
                    Some(x) => {
                        st.angle = x;
                        proof {
                            assert(Style::apply_field_spec(old(st)@, tok, value@) == Ok::<
                                StyleV,
                                AssParseError,
                                >(st@)) by {
                                assert(st@ =~= StyleV { angle: x, ..old(st)@ });
                            }
                        }
                        return Ok(());
                    },
                    None => {
                        return Err(AssParseError::StyleNotMatchFormat);
                    },
                }
            },
            Token::BorderStyle => {
                match BorderStyle::parse(value) {
                    Ok(x) => {
                        st.border_style = x;
                        proof {
                            assert(Style::apply_field_spec(old(st)@, tok, value@) == Ok::<
                                StyleV,
                                AssParseError,
                                >(st@)) by {
                                assert(st@ =~= StyleV { border_style: x, ..old(st)@ });
                            }
                        }
                        return Ok(());
                    },
                    Err(e) => {
                        return Err(e);
                    },
                }
            },
            Token::Outline => {
                if is_decimal(value) {
                    st.outline = chars_to_string(value);
                    proof {
                        assert(Style::apply_field_spec(old(st)@, tok, value@) == Ok::<
                            StyleV,
                            AssParseError,
                            >(st@)) by {
                            assert(st@ =~= StyleV { outline: value@, ..old(st)@ });
                        }
                    }
                    return Ok(());
                } else {
                    return Err(AssParseError::StyleNotMatchFormat);
                }
            },
            Token::Shadow => {
                if is_decimal(value) {
                    st.shadow = chars_to_string(value);
                    proof {
                        assert(Style::apply_field_spec(old(st)@, tok, value@) == Ok::<
                            StyleV,
                            AssParseError,
                            >(st@)) by {
                            assert(st@ =~= StyleV { shadow: value@, ..old(st)@ });
                        }
                    }
                    return Ok(());
                } else {
                    return Err(AssParseError::StyleNotMatchFormat);
                }
            },
            Token::Alignment => {
                match Alignment::parse(value) {
                    Ok(x) => {
                        st.alignment = x;
                        proof {
                            assert(Style::apply_field_spec(old(st)@, tok, value@) == Ok::<
                                StyleV,
                                AssParseError,
                                >(st@)) by {
                                assert(st@ =~= StyleV { alignment: x, ..old(st)@ });
                            }
                        }
                        return Ok(());
                    },
                    Err(e) => {
                        return Err(e);
                    },
                }
            },
            Token::MarginL => {
                match parse_i32_chars(value) {
                    Some(x) => {
                        st.margin_l = x;
                        proof {
                            assert(Style::apply_field_spec(old(st)@, tok, value@) == Ok::<
                                StyleV,
                                AssParseError,
                                >(st@)) by {
                                assert(st@ =~= StyleV { margin_l: x, ..old(st)@ });
                            }
                        }
                        return Ok(());
                    },
                    None => {
                        return Err(AssParseError::StyleNotMatchFormat);
                    },
                }
            },
            Token::MarginR => {
                match parse_i32_chars(value) {
                    Some(x) => {
                        st.margin_r = x;
                        proof {
                            assert(Style::apply_field_spec(old(st)@, tok, value@) == Ok::<
                                StyleV,
                                AssParseError,
                                >(st@)) by {
                                assert(st@ =~= StyleV { margin_r: x, ..old(st)@ });
                            }
                        }
                        return Ok(());
                    },
                    None => {
                        return Err(AssParseError::StyleNotMatchFormat);
                    },
                }
            },
            Token::MarginV => {
                match parse_i32_chars(value) {
                    Some(x) => {
                        st.margin_v = x;
                        proof {
                            assert(Style::apply_field_spec(old(st)@, tok, value@) == Ok::<
                                StyleV,
                                AssParseError,
                                >(st@)) by {
                                assert(st@ =~= StyleV { margin_v: x, ..old(st)@ });
                            }
                        }
                        return Ok(());
                    },
                    None => {
                        return Err(AssParseError::StyleNotMatchFormat);
                    },
                }
            },
            Token::Encoding => {
                match Encoding::parse(value) {
                    Ok(x) => {
                        st.encoding = x;
                        proof {
                            assert(Style::apply_field_spec(old(st)@, tok, value@) == Ok::<
                                StyleV,
                                AssParseError,
                                >(st@)) by {
                                assert(st@ =~= StyleV { encoding: x, ..old(st)@ });
                            }
                        }
                        return Ok(());
                    },
                    Err(e) => {
                        return Err(e);
                    },
                }
            },
        }
        Ok(())
    }

    /// Decodes one style data line against the active schema, or against the
    /// canonical one when none was declared.
    #[verifier::rlimit(100)]
    pub fn parse(s: &Vec<char>, f: Option<&Format>) -> (r: Result<Style, AssParseError>)
        ensures
            match r {
                Ok(st) => Style::parse_spec(s@, opt_format_view(f)) == Ok::<
                    StyleV,
                    AssParseError,
                >(st@),
                Err(e) => Style::parse_spec(s@, opt_format_view(f)) == Err::<
                    StyleV,
                    AssParseError,
                >(e),
            },
    {
        let mut res = Style::default();
        if let Some(v) = f {
            res.format = Format(copy_vec(&v.0));
        }
        let ghost fmt = res@.format;
        let ghost st0 = res@;
        let ghost spec_result = Style::parse_spec(s@, opt_format_view(f));
        let fields = split_chars(s, ',');
        let ghost fvs = views_of(fields@);
        let n = res.format.0.len();
        proof {
            assert(fvs.len() == fields@.len());
            assert(fmt == match opt_format_view(f) {
                Some(x) => x,
                None => Format::default_spec(),
            });
            assert(st0 =~= StyleV { format: fmt, ..Style::default_spec() });
        }
        if fields.len() != n {
            proof {
                assert(spec_result == Err::<StyleV, AssParseError>(
                    AssParseError::StyleNotMatchFormat,
                ));
            }
            return Err(AssParseError::StyleNotMatchFormat);
        }
        proof {
            assert(fmt.subrange(0, fmt.len() as int) =~= fmt);
            assert(fvs.subrange(0, fvs.len() as int) =~= fvs);
            assert(spec_result == Style::decode_cols_spec(st0, fmt, fvs));
        }
        let mut j: usize = 0;
        while j < n
            invariant
                0 <= j <= n,
                n == fmt.len(),
                n == res.format.0@.len(),
                fvs.len() == n,
                res@.format == fmt,
                fmt == res.format@,
                fvs == views_of(fields@),
                n == fields@.len(),
                spec_result == Style::parse_spec(s@, opt_format_view(f)),
                spec_result == Style::decode_cols_spec(
                    res@,
                    fmt.subrange(j as int, n as int),
                    fvs.subrange(j as int, n as int),
                ),
            decreases n - j,
        {
            let ghost fsub = fmt.subrange(j as int, n as int);
            let ghost vsub = fvs.subrange(j as int, n as int);
            proof {
                assert(fsub.len() > 0);
                assert(fsub[0] == fmt[j as int]);
                assert(vsub[0] == fvs[j as int]);
                assert(fvs[j as int] == fields@[j as int]@);
                assert(fsub.subrange(1, fsub.len() as int) =~= fmt.subrange(
                    j as int + 1,
                    n as int,
                ));
                assert(vsub.subrange(1, vsub.len() as int) =~= fvs.subrange(
                    j as int + 1,
                    n as int,
                ));
            }
            let value: &Vec<char> = &fields[j];
            let ghost pre = res@;
            let tok = res.format.0[j];
            match Style::apply_field(&mut res, tok, value) {
                Ok(_) => {},
                Err(e) => {
                    return Err(e);
                },
            }
            j = j + 1;
        }
        proof {
            assert(fmt.subrange(n as int, n as int) =~= Seq::<Token>::empty());
            assert(fvs.subrange(n as int, n as int) =~= Seq::<Seq<char>>::empty());
            assert(spec_result == Ok::<StyleV, AssParseError>(res@));
        }
        Ok(res)
    }

    /// The text one column contributes to the rendered row.
    pub open spec fn field_str_spec(st: StyleV, t: Token) -> Seq<char> {
        match t {
            Token::Name => st.name,
            Token::Fontname => st.font_name,
            Token::Fontsize => dec_str(st.font_size as int),
            Token::PrimaryColour => st.primary_colour.render_spec(),
            Token::SecondaryColour => st.secondary_colour.render_spec(),
            Token::OutlineColour => st.outline_colour.render_spec(),
            Token::BackColour => st.back_colour.render_spec(),
            Token::Bold => ass_bool_str(st.bold),
            Token::Italic => ass_bool_str(st.italic),
            Token::Underline => ass_bool_str(st.underline),
            Token::StrikeOut => ass_bool_str(st.strikeout),
            Token::ScaleX => dec_str(st.scale_x as int),
            Token::ScaleY => dec_str(st.scale_y as int),
            Token::Spacing => st.spacing,
            Token::Angle => dec_str(st.angle as int),
            Token::BorderStyle => st.border_style.render_spec(),
            Token::Outline => st.outline,
            Token::Shadow => st.shadow,
            Token::Alignment => st.alignment.render_spec(),
            Token::MarginL => int_str(st.margin_l as int),
            Token::MarginR => int_str(st.margin_r as int),
            Token::MarginV => int_str(st.margin_v as int),
            Token::Encoding => st.encoding.render_spec(),
        }
    }

    /// The whole rendered row: the `Style: ` label, then the columns in the
    /// record's own schema order joined by commas.
    pub open spec fn render_spec(st: StyleV) -> Seq<char> {
        "Style: "@ + join_spec(
            st.format.map_values(|t: Token| Style::field_str_spec(st, t)),
            ","@,
        )
    }

    pub fn push_render(&self, out: &mut Vec<char>)
        ensures
            final(out)@ == old(out)@ + Style::render_spec(self@),
    {
        let ghost pieces = self@.format.map_values(
            |t: Token| Style::field_str_spec(self@, t),
        );
        push_str(out, "Style: ");
        proof {
            assert(out@ =~= old(out)@ + "Style: "@);
            assert(pieces.subrange(0, 0) =~= Seq::<Seq<char>>::empty());
            assert(out@ + Seq::<char>::empty() =~= out@);
        }
        let n = self.format.0.len();
        let mut k: usize = 0;
        while k < n
            invariant
                0 <= k <= n,
                n == self@.format.len(),
                pieces == self@.format.map_values(
                    |t: Token| Style::field_str_spec(self@, t),
                ),
                out@ == old(out)@ + "Style: "@ + join_spec(pieces.subrange(0, k as int), ","@),
            decreases n - k,
        {
            proof {
                assert(pieces.subrange(0, k as int + 1) =~= pieces.subrange(0, k as int).push(
                    pieces[k as int],
                ));
                lemma_join_push(pieces.subrange(0, k as int), pieces[k as int], ","@);
                reveal_strlit(",");
            }
            if k > 0 {
                out.push(',');
                proof {
                    assert(","@.len() == 1 && ","@[0] == ',');
                    assert((old(out)@ + "Style: "@ + join_spec(
                        pieces.subrange(0, k as int),
                        ","@,
                    )).push(',') =~= old(out)@ + "Style: "@ + (join_spec(
                        pieces.subrange(0, k as int),
                        ","@,
                    ) + ","@));
                }
            }
            let ghost mid = out@;
            let tok = self.format.0[k];
            match tok {
                Token::Name => push_str(out, self.name.as_str()),
                Token::Fontname => push_str(out, self.font_name.as_str()),
                Token::Fontsize => push_dec_u64(out, self.font_size as u64),
                Token::PrimaryColour => self.primary_colour.push_render(out),
                Token::SecondaryColour => self.secondary_colour.push_render(out),
                Token::OutlineColour => self.outline_colour.push_render(out),
                Token::BackColour => self.back_colour.push_render(out),
                Token::Bold => push_str(out, if self.bold { "-1" } else { "0" }),
                Token::Italic => push_str(out, if self.italic { "-1" } else { "0" }),
                Token::Underline => push_str(out, if self.underline { "-1" } else { "0" }),
                Token::StrikeOut => push_str(out, if self.strikeout { "-1" } else { "0" }),
                Token::ScaleX => push_dec_u64(out, self.scale_x as u64),
                Token::ScaleY => push_dec_u64(out, self.scale_y as u64),
                Token::Spacing => push_str(out, self.spacing.as_str()),
                Token::Angle => push_dec_u64(out, self.angle as u64),
                Token::BorderStyle => self.border_style.push_render(out),
                Token::Outline => push_str(out, self.outline.as_str()),
                Token::Shadow => push_str(out, self.shadow.as_str()),
                Token::Alignment => self.alignment.push_render(out),
                Token::MarginL => push_dec_i32(out, self.margin_l),
                Token::MarginR => push_dec_i32(out, self.margin_r),
                Token::MarginV => push_dec_i32(out, self.margin_v),
                Token::Encoding => self.encoding.push_render(out),
            }
            proof {
                assert(pieces[k as int] == Style::field_str_spec(self@, self@.format[k as int]));
                assert(out@ =~= mid + pieces[k as int]);
                if k > 0 {
                    assert(out@ =~= old(out)@ + "Style: "@ + (join_spec(
                        pieces.subrange(0, k as int),
                        ","@,
                    ) + ","@ + pieces[k as int]));
                } else {
                    assert(join_spec(pieces.subrange(0, 0), ","@) =~= Seq::<char>::empty());
                    assert(out@ =~= old(out)@ + "Style: "@ + pieces[0]);
                }
            }
            k = k + 1;
        }
        proof {
            assert(pieces.subrange(0, n as int) =~= pieces);
            assert(old(out)@ + "Style: "@ + join_spec(pieces, ","@) =~= old(out)@
                + Style::render_spec(self@));
        }
    }
}

impl Default for Style {
    /// The default style record.
    fn default() -> (st: Style)
        ensures
            st@ == Style::default_spec(),
    {
        let st = Style {
            format: Format::default(),
            name: String::from_str("Default"),
            font_name: String::from_str("Arial"),
            font_size: 18,
            primary_colour: ABGR { a: 0xff, b: 0xff, g: 0xff, r: 0x00 },
            secondary_colour: ABGR { a: 0x00, b: 0xff, g: 0xff, r: 0x00 },
            outline_colour: ABGR { a: 0x00, b: 0x00, g: 0x00, r: 0x00 },
            back_colour: ABGR { a: 0x00, b: 0x00, g: 0x00, r: 0x00 },
            bold: false,
            italic: false,
            underline: false,
            strikeout: false,
            scale_x: 100,
            scale_y: 100,
            spacing: String::from_str("0"),
            angle: 0,
            border_style: BorderStyle::One,
            outline: String::from_str("2"),
            shadow: String::from_str("3"),
            alignment: Alignment::BottomCenter,
            margin_l: 20,
            margin_r: 20,
            margin_v: 20,
            encoding: Encoding::Default,
        };
        proof {
            assert(st@ =~= Style::default_spec());
        }
        st
    }
}

} // verus!
