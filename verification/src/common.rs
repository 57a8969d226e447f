//! Field codecs shared by the header, style and event sections: the closed
//! enumerations with fixed text codes, colors, timecodes, and the
//! "Field: Value" line splitter.

use vstd::prelude::*;
use crate::error::AssParseError;
use crate::text::{
    all_digits, byte_hex, chars_eq_str, chars_eq_str_ci, copy_range, dec_str, digit_char,
    digit_of, digit_val, digits_val, eq_ci_spec, hex_of, hex_val, is_digit_char, is_ws_char,
    is_ws, parse_digits_capped, push_dec_2, push_dec_u64, push_str, push_byte_hex,
};

verus! {

broadcast use vstd::string::group_string_axioms;

/// Wrap style codes.
#[derive(Debug, Clone, Copy, PartialEq, Eq, Structural)]
pub enum WrapStyle {
    Zero,
    One,
    Two,
    Three,
}

impl WrapStyle {
    pub open spec fn render_spec(self) -> Seq<char> {
        match self {
            WrapStyle::Zero => "0"@,
            WrapStyle::One => "1"@,
            WrapStyle::Two => "2"@,
            WrapStyle::Three => "3"@,
        }
    }

    pub open spec fn parse_spec(s: Seq<char>) -> Result<WrapStyle, AssParseError> {
        if s == "0"@ {
            Ok(WrapStyle::Zero)
        } else if s == "1"@ {
            Ok(WrapStyle::One)
        } else if s == "2"@ {
            Ok(WrapStyle::Two)
        } else if s == "3"@ {
            Ok(WrapStyle::Three)
        } else {
            Err(AssParseError::BadWrapStyle)
        }
    }

    pub fn parse(s: &Vec<char>) -> (r: Result<WrapStyle, AssParseError>)
        ensures
            r == WrapStyle::parse_spec(s@),
    {
        if chars_eq_str(s, "0") {
            Ok(WrapStyle::Zero)
        } else if chars_eq_str(s, "1") {
            Ok(WrapStyle::One)
        } else if chars_eq_str(s, "2") {
            Ok(WrapStyle::Two)
        } else if chars_eq_str(s, "3") {
            Ok(WrapStyle::Three)
        } else {
            Err(AssParseError::BadWrapStyle)
        }
    }

    pub fn push_render(&self, out: &mut Vec<char>)
        ensures
            final(out)@ == old(out)@ + self.render_spec(),
    {
        match self {
            WrapStyle::Zero => push_str(out, "0"),
            WrapStyle::One => push_str(out, "1"),
            WrapStyle::Two => push_str(out, "2"),
            WrapStyle::Three => push_str(out, "3"),
        }
    }
}

/// Luma/chroma matrix descriptors; the text form is matched without regard
/// to ASCII case.
#[derive(Debug, Clone, Copy, PartialEq, Eq, Structural)]
pub enum YCbCrMatrix {
    Bt601TV,
    Bt601PC,
    Bt709TV,
    Bt709PC,
    Smpte240mTV,
    Smpte240mPC,
    FccTV,
    FccPC,
}

impl YCbCrMatrix {
    pub open spec fn render_spec(self) -> Seq<char> {
        match self {
            YCbCrMatrix::Bt601TV => "TV.601"@,
            YCbCrMatrix::Bt601PC => "PC.601"@,
            YCbCrMatrix::Bt709TV => "TV.709"@,
            YCbCrMatrix::Bt709PC => "PC.709"@,
            YCbCrMatrix::Smpte240mTV => "TV.240M"@,
            YCbCrMatrix::Smpte240mPC => "PC.240M"@,
            YCbCrMatrix::FccTV => "TV.FCC"@,
            YCbCrMatrix::FccPC => "PC.FCC"@,
        }
    }

    pub open spec fn parse_spec(s: Seq<char>) -> Result<YCbCrMatrix, AssParseError> {
        if eq_ci_spec(s, "tv.601"@) {
            Ok(YCbCrMatrix::Bt601TV)
        } else if eq_ci_spec(s, "pc.601"@) {
            Ok(YCbCrMatrix::Bt601PC)
        } else if eq_ci_spec(s, "tv.709"@) {
            Ok(YCbCrMatrix::Bt709TV)
        } else if eq_ci_spec(s, "pc.709"@) {
            Ok(YCbCrMatrix::Bt709PC)
        } else if eq_ci_spec(s, "tv.240m"@) {
            Ok(YCbCrMatrix::Smpte240mTV)
        } else if eq_ci_spec(s, "pc.240m"@) {
            Ok(YCbCrMatrix::Smpte240mPC)
        } else if eq_ci_spec(s, "tv.fcc"@) {
            Ok(YCbCrMatrix::FccTV)
        } else if eq_ci_spec(s, "pc.fcc"@) {
            Ok(YCbCrMatrix::FccPC)
        } else {
            Err(AssParseError::BadYCbCrMatrix)
        }
    }

    pub fn parse(s: &Vec<char>) -> (r: Result<YCbCrMatrix, AssParseError>)
        ensures
            r == YCbCrMatrix::parse_spec(s@),
    {
        if chars_eq_str_ci(s, "tv.601") {
            Ok(YCbCrMatrix::Bt601TV)
        } else if chars_eq_str_ci(s, "pc.601") {
            Ok(YCbCrMatrix::Bt601PC)
        } else if chars_eq_str_ci(s, "tv.709") {
            Ok(YCbCrMatrix::Bt709TV)
        } else if chars_eq_str_ci(s, "pc.709") {
            Ok(YCbCrMatrix::Bt709PC)
        } else if chars_eq_str_ci(s, "tv.240m") {
            Ok(YCbCrMatrix::Smpte240mTV)
        } else if chars_eq_str_ci(s, "pc.240m") {
            Ok(YCbCrMatrix::Smpte240mPC)
        } else if chars_eq_str_ci(s, "tv.fcc") {
            Ok(YCbCrMatrix::FccTV)
        } else if chars_eq_str_ci(s, "pc.fcc") {
            Ok(YCbCrMatrix::FccPC)
        } else {
            Err(AssParseError::BadYCbCrMatrix)
        }
    }

    pub fn push_render(&self, out: &mut Vec<char>)
        ensures
            final(out)@ == old(out)@ + self.render_spec(),
    {
        match self {
            YCbCrMatrix::Bt601TV => push_str(out, "TV.601"),
            YCbCrMatrix::Bt601PC => push_str(out, "PC.601"),
            YCbCrMatrix::Bt709TV => push_str(out, "TV.709"),
            YCbCrMatrix::Bt709PC => push_str(out, "PC.709"),
            YCbCrMatrix::Smpte240mTV => push_str(out, "TV.240M"),
            YCbCrMatrix::Smpte240mPC => push_str(out, "PC.240M"),
            YCbCrMatrix::FccTV => push_str(out, "TV.FCC"),
            YCbCrMatrix::FccPC => push_str(out, "PC.FCC"),
        }
    }
}

/// Border style codes.
#[derive(Debug, Clone, Copy, PartialEq, Eq, Structural)]
pub enum BorderStyle {
    One,
    Three,
    Four,
}

impl BorderStyle {
    pub open spec fn render_spec(self) -> Seq<char> {
        match self {
            BorderStyle::One => "1"@,
            BorderStyle::Three => "3"@,
            BorderStyle::Four => "4"@,
        }
    }

    pub open spec fn parse_spec(s: Seq<char>) -> Result<BorderStyle, AssParseError> {
        if s == "1"@ {
            Ok(BorderStyle::One)
        } else if s == "3"@ {
            Ok(BorderStyle::Three)
        } else if s == "4"@ {
            Ok(BorderStyle::Four)
        } else {
            Err(AssParseError::BadBorderStyle)
        }
    }

    pub fn parse(s: &Vec<char>) -> (r: Result<BorderStyle, AssParseError>)
        ensures
            r == BorderStyle::parse_spec(s@),
    {
        if chars_eq_str(s, "1") {
            Ok(BorderStyle::One)
        } else if chars_eq_str(s, "3") {
            Ok(BorderStyle::Three)
        } else if chars_eq_str(s, "4") {
            Ok(BorderStyle::Four)
        } else {
            Err(AssParseError::BadBorderStyle)
        }
    }

    pub fn push_render(&self, out: &mut Vec<char>)
        ensures
            final(out)@ == old(out)@ + self.render_spec(),
    {
        match self {
            BorderStyle::One => push_str(out, "1"),
            BorderStyle::Three => push_str(out, "3"),
            BorderStyle::Four => push_str(out, "4"),
        }
    }
}

/// Numpad-style alignment positions.
#[derive(Debug, Clone, Copy, PartialEq, Eq, Structural)]
pub enum Alignment {
    BottomLeft,
    BottomCenter,
    BottomRight,
    Left,
    Center,
    Right,
    TopLeft,
    TopCenter,
    TopRight,
}

impl Alignment {
    pub open spec fn render_spec(self) -> Seq<char> {
        match self {
            Alignment::BottomLeft => "1"@,
            Alignment::BottomCenter => "2"@,
            Alignment::BottomRight => "3"@,
            Alignment::Left => "4"@,
            Alignment::Center => "5"@,
            Alignment::Right => "6"@,
            Alignment::TopLeft => "7"@,
            Alignment::TopCenter => "8"@,
            Alignment::TopRight => "9"@,
        }
    }

    pub open spec fn parse_spec(s: Seq<char>) -> Result<Alignment, AssParseError> {
        if s == "1"@ {
            Ok(Alignment::BottomLeft)
        } else if s == "2"@ {
            Ok(Alignment::BottomCenter)
        } else if s == "3"@ {
            Ok(Alignment::BottomRight)
        } else if s == "4"@ {
            Ok(Alignment::Left)
        } else if s == "5"@ {
            Ok(Alignment::Center)
        } else if s == "6"@ {
            Ok(Alignment::Right)
        } else if s == "7"@ {
            Ok(Alignment::TopLeft)
        } else if s == "8"@ {
            Ok(Alignment::TopCenter)
        } else if s == "9"@ {
            Ok(Alignment::TopRight)
        } else {
            Err(AssParseError::BadAlignment)
        }
    }

    pub fn parse(s: &Vec<char>) -> (r: Result<Alignment, AssParseError>)
        ensures
            r == Alignment::parse_spec(s@),
    {
        if chars_eq_str(s, "1") {
            Ok(Alignment::BottomLeft)
        } else if chars_eq_str(s, "2") {
            Ok(Alignment::BottomCenter)
        } else if chars_eq_str(s, "3") {
            Ok(Alignment::BottomRight)
        } else if chars_eq_str(s, "4") {
            Ok(Alignment::Left)
        } else if chars_eq_str(s, "5") {
            Ok(Alignment::Center)
        } else if chars_eq_str(s, "6") {
            Ok(Alignment::Right)
        } else if chars_eq_str(s, "7") {
            Ok(Alignment::TopLeft)
        } else if chars_eq_str(s, "8") {
            Ok(Alignment::TopCenter)
        } else if chars_eq_str(s, "9") {
            Ok(Alignment::TopRight)
        } else {
            Err(AssParseError::BadAlignment)
        }
    }

    pub fn push_render(&self, out: &mut Vec<char>)
        ensures
            final(out)@ == old(out)@ + self.render_spec(),
    {
        match self {
            Alignment::BottomLeft => push_str(out, "1"),
            Alignment::BottomCenter => push_str(out, "2"),
            Alignment::BottomRight => push_str(out, "3"),
            Alignment::Left => push_str(out, "4"),
            Alignment::Center => push_str(out, "5"),
            Alignment::Right => push_str(out, "6"),
            Alignment::TopLeft => push_str(out, "7"),
            Alignment::TopCenter => push_str(out, "8"),
            Alignment::TopRight => push_str(out, "9"),
        }
    }
}

/// Character-encoding code pages.
#[derive(Debug, Clone, Copy, PartialEq, Eq, Structural)]
pub enum Encoding {
    Ansi,
    Default,
    Symbol,
    Mac,
    ShiftJIS,
    Hangeul,
    Johab,
    Gb2312,
    ChineseBIG5,
    Greek,
    Turkish,
    Vietnamese,
    Hebrew,
    Arabic,
    Baltic,
    Russian,
    Thai,
    EastEuropean,
    Oem,
}

impl Encoding {
    pub open spec fn render_spec(self) -> Seq<char> {
        match self {
            Encoding::Ansi => "0"@,
            Encoding::Default => "1"@,
            Encoding::Symbol => "2"@,
            Encoding::Mac => "77"@,
            Encoding::ShiftJIS => "128"@,
            Encoding::Hangeul => "129"@,
            Encoding::Johab => "130"@,
            Encoding::Gb2312 => "134"@,
            Encoding::ChineseBIG5 => "136"@,
            Encoding::Greek => "161"@,
            Encoding::Turkish => "162"@,
            Encoding::Vietnamese => "163"@,
            Encoding::Hebrew => "177"@,
            Encoding::Arabic => "178"@,
            Encoding::Baltic => "186"@,
            Encoding::Russian => "204"@,
            Encoding::Thai => "222"@,
            Encoding::EastEuropean => "238"@,
            Encoding::Oem => "255"@,
        }
    }

    pub open spec fn parse_spec(s: Seq<char>) -> Result<Encoding, AssParseError> {
        if s == "0"@ {
            Ok(Encoding::Ansi)
        } else if s == "1"@ {
            Ok(Encoding::Default)
        } else if s == "2"@ {
            Ok(Encoding::Symbol)
        } else if s == "77"@ {
            Ok(Encoding::Mac)
        } else if s == "128"@ {
            Ok(Encoding::ShiftJIS)
        } else if s == "129"@ {
            Ok(Encoding::Hangeul)
        } else if s == "130"@ {
            Ok(Encoding::Johab)
        } else if s == "134"@ {
            Ok(Encoding::Gb2312)
        } else if s == "136"@ {
            Ok(Encoding::ChineseBIG5)
        } else if s == "161"@ {
            Ok(Encoding::Greek)
        } else if s == "162"@ {
            Ok(Encoding::Turkish)
        } else if s == "163"@ {
            Ok(Encoding::Vietnamese)
        } else if s == "177"@ {
            Ok(Encoding::Hebrew)
        } else if s == "178"@ {
            Ok(Encoding::Arabic)
        } else if s == "186"@ {
            Ok(Encoding::Baltic)
        } else if s == "204"@ {
            Ok(Encoding::Russian)
        } else if s == "222"@ {
            Ok(Encoding::Thai)
        } else if s == "238"@ {
            Ok(Encoding::EastEuropean)
        } else if s == "255"@ {
            Ok(Encoding::Oem)
        } else {
            Err(AssParseError::BadEncoding)
        }
    }

    pub fn parse(s: &Vec<char>) -> (r: Result<Encoding, AssParseError>)
        ensures
            r == Encoding::parse_spec(s@),
    {
        if chars_eq_str(s, "0") {
            Ok(Encoding::Ansi)
        } else if chars_eq_str(s, "1") {
            Ok(Encoding::Default)
        } else if chars_eq_str(s, "2") {
            Ok(Encoding::Symbol)
        } else if chars_eq_str(s, "77") {
            Ok(Encoding::Mac)
        } else if chars_eq_str(s, "128") {
            Ok(Encoding::ShiftJIS)
        } else if chars_eq_str(s, "129") {
            Ok(Encoding::Hangeul)
        } else if chars_eq_str(s, "130") {
            Ok(Encoding::Johab)
        } else if chars_eq_str(s, "134") {
            Ok(Encoding::Gb2312)
        } else if chars_eq_str(s, "136") {
            Ok(Encoding::ChineseBIG5)
        } else if chars_eq_str(s, "161") {
            Ok(Encoding::Greek)
        } else if chars_eq_str(s, "162") {
            Ok(Encoding::Turkish)
        } else if chars_eq_str(s, "163") {
            Ok(Encoding::Vietnamese)
        } else if chars_eq_str(s, "177") {
            Ok(Encoding::Hebrew)
        } else if chars_eq_str(s, "178") {
            Ok(Encoding::Arabic)
        } else if chars_eq_str(s, "186") {
            Ok(Encoding::Baltic)
        } else if chars_eq_str(s, "204") {
            Ok(Encoding::Russian)
        } else if chars_eq_str(s, "222") {
            Ok(Encoding::Thai)
        } else if chars_eq_str(s, "238") {
            Ok(Encoding::EastEuropean)
        } else if chars_eq_str(s, "255") {
            Ok(Encoding::Oem)
        } else {
            Err(AssParseError::BadEncoding)
        }
    }

    pub fn push_render(&self, out: &mut Vec<char>)
        ensures
            final(out)@ == old(out)@ + self.render_spec(),
    {
        match self {
            Encoding::Ansi => push_str(out, "0"),
            Encoding::Default => push_str(out, "1"),
            Encoding::Symbol => push_str(out, "2"),
            Encoding::Mac => push_str(out, "77"),
            Encoding::ShiftJIS => push_str(out, "128"),
            Encoding::Hangeul => push_str(out, "129"),
            Encoding::Johab => push_str(out, "130"),
            Encoding::Gb2312 => push_str(out, "134"),
            Encoding::ChineseBIG5 => push_str(out, "136"),
            Encoding::Greek => push_str(out, "161"),
            Encoding::Turkish => push_str(out, "162"),
            Encoding::Vietnamese => push_str(out, "163"),
            Encoding::Hebrew => push_str(out, "177"),
            Encoding::Arabic => push_str(out, "178"),
            Encoding::Baltic => push_str(out, "186"),
            Encoding::Russian => push_str(out, "204"),
            Encoding::Thai => push_str(out, "222"),
            Encoding::EastEuropean => push_str(out, "238"),
            Encoding::Oem => push_str(out, "255"),
        }
    }
}

/// A color as four 8-bit channels: alpha, blue, green, red.
#[derive(Debug, Clone, Copy, PartialEq, Eq, Structural)]
pub struct ABGR {
    pub a: u8,
    pub b: u8,
    pub g: u8,
    pub r: u8,
}

impl ABGR {
    /// `&H` followed by exactly eight hexadecimal digits, two per channel in
    /// alpha, blue, green, red order.
    pub open spec fn parse_spec(s: Seq<char>) -> Result<ABGR, AssParseError> {
        if s.len() == 10 && s[0] == '&' && s[1] == 'H' && hex_val(s[2]) != -1 && hex_val(s[3])
            != -1 && hex_val(s[4]) != -1 && hex_val(s[5]) != -1 && hex_val(s[6]) != -1 && hex_val(
            s[7],
        ) != -1 && hex_val(s[8]) != -1 && hex_val(s[9]) != -1 {
            Ok(
                ABGR {
                    a: (hex_val(s[2]) * 16 + hex_val(s[3])) as u8,
                    b: (hex_val(s[4]) * 16 + hex_val(s[5])) as u8,
                    g: (hex_val(s[6]) * 16 + hex_val(s[7])) as u8,
                    r: (hex_val(s[8]) * 16 + hex_val(s[9])) as u8,
                },
            )
        } else {
            Err(AssParseError::BadColourCode)
        }
    }

    pub open spec fn render_spec(self) -> Seq<char> {
        "&H"@ + byte_hex(self.a as int) + byte_hex(self.b as int) + byte_hex(self.g as int)
            + byte_hex(self.r as int)
    }

    pub fn parse(s: &Vec<char>) -> (r: Result<ABGR, AssParseError>)
        ensures
            r == ABGR::parse_spec(s@),
    {
        if s.len() != 10 || s[0] != '&' || s[1] != 'H' {
            return Err(AssParseError::BadColourCode);
        }
        let h2 = hex_of(s[2]);
        let h3 = hex_of(s[3]);
        let h4 = hex_of(s[4]);
        let h5 = hex_of(s[5]);
        let h6 = hex_of(s[6]);
        let h7 = hex_of(s[7]);
        let h8 = hex_of(s[8]);
        let h9 = hex_of(s[9]);
        match (h2, h3, h4, h5, h6, h7, h8, h9) {
            (
                Some(x2),
                Some(x3),
                Some(x4),
                Some(x5),
                Some(x6),
                Some(x7),
                Some(x8),
                Some(x9),
            ) => Ok(
                ABGR {
                    a: x2 * 16 + x3,
                    b: x4 * 16 + x5,
                    g: x6 * 16 + x7,
                    r: x8 * 16 + x9,
                },
            ),
            _ => Err(AssParseError::BadColourCode),
        }
    }

    pub fn push_render(&self, out: &mut Vec<char>)
        ensures
            final(out)@ == old(out)@ + self.render_spec(),
    {
        push_str(out, "&H");
        push_byte_hex(out, self.a);
        push_byte_hex(out, self.b);
        push_byte_hex(out, self.g);
        push_byte_hex(out, self.r);
        proof {
            assert(old(out)@ + "&H"@ + byte_hex(self.a as int) + byte_hex(self.b as int)
                + byte_hex(self.g as int) + byte_hex(self.r as int) =~= old(out)@
                + self.render_spec());
        }
    }
}

impl vstd::std_specs::convert::FromSpecImpl<u32> for ABGR {
    open spec fn obeys_from_spec() -> bool {
        true
    }

    open spec fn from_spec(i: u32) -> ABGR {
        ABGR {
            a: (i / 16777216) as u8,
            b: ((i / 65536) % 256) as u8,
            g: ((i / 256) % 256) as u8,
            r: (i % 256) as u8,
        }
    }
}

impl From<u32> for ABGR {
    /// Reads the four channels from the big-endian bytes of `i`.
    fn from(i: u32) -> (c: ABGR) {
        ABGR {
            a: (i / 16777216) as u8,
            b: ((i / 65536) % 256) as u8,
            g: ((i / 256) % 256) as u8,
            r: (i % 256) as u8,
        }
    }
}

/// Rendering then re-reading a color gives back the same channels.
///
/// Law: the color codec round-trips on every value.
pub proof fn lemma_color_round_trip(c: ABGR)
    ensures
        ABGR::parse_spec(c.render_spec()) == Ok::<ABGR, AssParseError>(c),
{
    reveal_strlit("&H");
    let s = c.render_spec();
    assert(s.len() == 10);
    assert(s[0] == '&' && s[1] == 'H');
    assert(s[2] == hex_char(c.a as int / 16) && s[3] == hex_char(c.a as int % 16));
    assert(s[4] == hex_char(c.b as int / 16) && s[5] == hex_char(c.b as int % 16));
    assert(s[6] == hex_char(c.g as int / 16) && s[7] == hex_char(c.g as int % 16));
    assert(s[8] == hex_char(c.r as int / 16) && s[9] == hex_char(c.r as int % 16));
    assert forall|d: int| 0 <= d < 16 implies hex_val(hex_char(d)) == d by {
    }
}

/// Uppercase hexadecimal digit character; re-exported spec shorthand used in
/// the color round-trip argument.
pub open spec fn hex_char(d: int) -> char {
    crate::text::hex_char(d)
}

/// A timecode with centisecond precision, stored as whole milliseconds.
#[derive(Debug, Clone, Copy, PartialEq, Eq, Structural)]
pub struct Timecode {
    pub ms: u64,
}

/// Milliseconds encoded by a `H:MM:SS.CS` text (one or more hour digits,
/// two digits for minutes, seconds and centiseconds), or `None` if the text
/// does not have that shape.
pub open spec fn timecode_ms_spec(s: Seq<char>) -> Option<int> {
    let n = s.len() as int;
    if n >= 10 && all_digits(s.subrange(0, n - 9)) && s[n - 9] == ':' && is_digit_char(s[n - 8])
        && is_digit_char(s[n - 7]) && s[n - 6] == ':' && is_digit_char(s[n - 5]) && is_digit_char(
        s[n - 4],
    ) && s[n - 3] == '.' && is_digit_char(s[n - 2]) && is_digit_char(s[n - 1]) {
        Some(
            digits_val(s.subrange(0, n - 9)) * 3600000 + (digit_val(s[n - 8]) * 10 + digit_val(
                s[n - 7],
            )) * 60000 + (digit_val(s[n - 5]) * 10 + digit_val(s[n - 4])) * 1000 + (digit_val(
                s[n - 2],
            ) * 10 + digit_val(s[n - 1])) * 10,
        )
    } else {
        None
    }
}

/// Largest whole number of hours a millisecond timecode can carry.
pub const MAX_TIMECODE_HOURS: u64 = u64::MAX / 3600000;

impl Timecode {
    pub open spec fn parse_spec(s: Seq<char>) -> Result<Timecode, AssParseError> {
        match timecode_ms_spec(s) {
            Some(v) => if v <= u64::MAX {
                Ok(Timecode { ms: v as u64 })
            } else {
                Err(AssParseError::BadTimeCode)
            },
            None => Err(AssParseError::BadTimeCode),
        }
    }

    pub fn parse(s: &Vec<char>) -> (r: Result<Timecode, AssParseError>)
        ensures
            r == Timecode::parse_spec(s@),
    {
        let n = s.len();
        if n < 10 {
            return Err(AssParseError::BadTimeCode);
        }
        let hlen = n - 9;
        if s[hlen] != ':' || s[hlen + 3] != ':' || s[hlen + 6] != '.' {
            return Err(AssParseError::BadTimeCode);
        }
        let m1 = digit_of(s[hlen + 1]);
        let m2 = digit_of(s[hlen + 2]);
        let s1 = digit_of(s[hlen + 4]);
        let s2 = digit_of(s[hlen + 5]);
        let c1 = digit_of(s[hlen + 7]);
        let c2 = digit_of(s[hlen + 8]);
        let (m1, m2, s1, s2, c1, c2) = match (m1, m2, s1, s2, c1, c2) {
            (Some(a), Some(b), Some(c), Some(d), Some(e), Some(f)) => (a, b, c, d, e, f),
            _ => {
                return Err(AssParseError::BadTimeCode);
            },
        };
        let h = match parse_digits_capped(s, 0, hlen, MAX_TIMECODE_HOURS) {
            Some(h) => h,
            None => {
                proof {
                    let hours = s@.subrange(0, hlen as int);
                    if hours.len() >= 1 && all_digits(hours) {
                        assert(digits_val(hours) > MAX_TIMECODE_HOURS);
                        assert(digits_val(hours) * 3600000 > u64::MAX) by (nonlinear_arith)
                            requires
                                digits_val(hours) > u64::MAX / 3600000,
                        ;
                        if timecode_ms_spec(s@) is Some {
                            assert(timecode_ms_spec(s@)->0 > u64::MAX);
                        }
                    }
                }
                return Err(AssParseError::BadTimeCode);
            },
        };
        let tail: u64 = (m1 as u64 * 10 + m2 as u64) * 60000 + (s1 as u64 * 10 + s2 as u64)
            * 1000 + (c1 as u64 * 10 + c2 as u64) * 10;
        proof {
            assert(h * 3600000 <= MAX_TIMECODE_HOURS * 3600000 <= u64::MAX) by (nonlinear_arith)
                requires
                    h <= MAX_TIMECODE_HOURS,
                    MAX_TIMECODE_HOURS == u64::MAX / 3600000,
            ;
        }
        let base: u64 = h * 3600000;
        if base > u64::MAX - tail {
            proof {
                assert(timecode_ms_spec(s@)->0 > u64::MAX);
            }
            return Err(AssParseError::BadTimeCode);
        }
        let ms: u64 = base + tail;
        proof {
            assert(timecode_ms_spec(s@) == Some(ms as int));
        }
        Ok(Timecode { ms })
    }

    /// `H:MM:SS.CS` rendering; minutes and seconds are reduced modulo their
    /// unit, and precision below one centisecond is dropped.
    pub open spec fn render_spec(self) -> Seq<char> {
        let ms = self.ms as int;
        dec_str(ms / 3600000) + seq![':'] + seq![
            digit_char(((ms / 60000) % 60) / 10),
            digit_char(((ms / 60000) % 60) % 10),
        ] + seq![':'] + seq![
            digit_char(((ms / 1000) % 60) / 10),
            digit_char(((ms / 1000) % 60) % 10),
        ] + seq!['.'] + seq![
            digit_char(((ms % 1000) / 10) / 10),
            digit_char(((ms % 1000) / 10) % 10),
        ]
    }

    pub fn push_render(&self, out: &mut Vec<char>)
        ensures
            final(out)@ == old(out)@ + self.render_spec(),
    {
        let h: u64 = self.ms / 3600000;
        let m: u64 = (self.ms / 60000) % 60;
        let sec: u64 = (self.ms / 1000) % 60;
        let cs: u64 = (self.ms % 1000) / 10;
        push_dec_u64(out, h);
        out.push(':');
        push_dec_2(out, m);
        out.push(':');
        push_dec_2(out, sec);
        out.push('.');
        push_dec_2(out, cs);
        proof {
            assert(final(out)@ =~= old(out)@ + self.render_spec());
        }
    }
}

/// Rendering then re-reading a timecode gives back the same duration,
/// provided the duration is a whole number of centiseconds — finer precision
/// cannot be written down and is dropped by the rendering.
///
/// Law: the timecode codec round-trips on every centisecond-aligned value.
pub proof fn lemma_timecode_round_trip(t: Timecode)
    requires
        t.ms % 10 == 0,
    ensures
        Timecode::parse_spec(t.render_spec()) == Ok::<Timecode, AssParseError>(t),
{
    let ms = t.ms as int;
    let h = ms / 3600000;
    let m = (ms / 60000) % 60;
    let sec = (ms / 1000) % 60;
    let cs = (ms % 1000) / 10;
    let s = t.render_spec();
    crate::text::lemma_dec_str_props(h);
    let hs = dec_str(h);
    let n = s.len() as int;
    assert(n == hs.len() + 9);
    assert(s.subrange(0, n - 9) =~= hs);
    assert(s[n - 9] == ':' && s[n - 6] == ':' && s[n - 3] == '.');
    assert(s[n - 8] == digit_char(m / 10) && s[n - 7] == digit_char(m % 10));
    assert(s[n - 5] == digit_char(sec / 10) && s[n - 4] == digit_char(sec % 10));
    assert(s[n - 2] == digit_char(cs / 10) && s[n - 1] == digit_char(cs % 10));
    assert(0 <= m < 60 && 0 <= sec < 60 && 0 <= cs < 100) by {
        vstd::arithmetic::div_mod::lemma_fundamental_div_mod(ms % 1000, 10);
        vstd::arithmetic::div_mod::lemma_fundamental_div_mod(ms, 1000);
    }
    assert forall|d: int| 0 <= d < 10 implies digit_val(digit_char(d)) == d by {
    }
    assert(digit_val(s[n - 8]) * 10 + digit_val(s[n - 7]) == m);
    assert(digit_val(s[n - 5]) * 10 + digit_val(s[n - 4]) == sec);
    assert(digit_val(s[n - 2]) * 10 + digit_val(s[n - 1]) == cs);
    let v = h * 3600000 + m * 60000 + sec * 1000 + cs * 10;
    assert(timecode_ms_spec(s) == Some(v));
    assert(v == ms) by {
        let q1 = ms / 60000;
        let r1 = ms % 60000;
        vstd::arithmetic::div_mod::lemma_fundamental_div_mod(ms, 60000);
        vstd::arithmetic::div_mod::lemma_fundamental_div_mod(q1, 60);
        assert(ms == 60000 * (60 * (q1 / 60) + m) + r1);
        assert(0 <= 60000 * m + r1 < 3600000);
        assert(ms == (q1 / 60) * 3600000 + (60000 * m + r1)) by (nonlinear_arith)
            requires
                ms == 60000 * (60 * (q1 / 60) + m) + r1,
        ;
        vstd::arithmetic::div_mod::lemma_fundamental_div_mod_converse(
            ms,
            3600000,
            q1 / 60,
            60000 * m + r1,
        );
        assert(h == q1 / 60);
        let q3 = ms / 1000;
        let r3 = ms % 1000;
        vstd::arithmetic::div_mod::lemma_fundamental_div_mod(ms, 1000);
        vstd::arithmetic::div_mod::lemma_fundamental_div_mod(q3, 60);
        assert(ms == 1000 * (60 * (q3 / 60) + sec) + r3);
        assert(0 <= 1000 * sec + r3 < 60000);
        assert(ms == (q3 / 60) * 60000 + (1000 * sec + r3)) by (nonlinear_arith)
            requires
                ms == 1000 * (60 * (q3 / 60) + sec) + r3,
        ;
        vstd::arithmetic::div_mod::lemma_fundamental_div_mod_converse(
            ms,
            60000,
            q3 / 60,
            1000 * sec + r3,
        );
        assert(r1 == 1000 * sec + r3);
        vstd::arithmetic::div_mod::lemma_fundamental_div_mod(r3, 10);
        assert(r3 % 10 == ms % 10) by {
            vstd::arithmetic::div_mod::lemma_fundamental_div_mod(ms, 10);
            assert(ms == 1000 * q3 + r3);
            assert(r3 == ms - 1000 * q3);
            assert((ms - 1000 * q3) % 10 == ms % 10) by (nonlinear_arith);
        }
        assert(r3 == 10 * cs);
        assert(ms == 3600000 * h + (60000 * m + r1));
    }
    assert(v <= u64::MAX);
    assert(Timecode::parse_spec(s) == Ok::<Timecode, AssParseError>(Timecode { ms: v as u64 }));
}

impl vstd::std_specs::convert::FromSpecImpl<u32> for Timecode {
    open spec fn obeys_from_spec() -> bool {
        true
    }

    open spec fn from_spec(i: u32) -> Timecode {
        Timecode { ms: i as u64 }
    }
}

impl From<u32> for Timecode {
    /// Reads a whole number of milliseconds.
    fn from(i: u32) -> (t: Timecode) {
        Timecode { ms: i as u64 }
    }
}

/// First position `>= i` at which a colon immediately followed by a
/// whitespace character starts, or `-1`.
pub open spec fn colon_ws_from(s: Seq<char>, i: int) -> int
    decreases s.len() - i,
{
    if i + 1 >= s.len() || i < 0 {
        -1
    } else if s[i] == ':' && is_ws_char(s[i + 1]) {
        i
    } else {
        colon_ws_from(s, i + 1)
    }
}

/// First position `>= i` holding a non-whitespace character, or the length
/// of `s`.
pub open spec fn skip_ws_from(s: Seq<char>, i: int) -> int
    decreases s.len() - i,
{
    if i >= s.len() || i < 0 {
        s.len() as int
    } else if is_ws_char(s[i]) {
        skip_ws_from(s, i + 1)
    } else {
        i
    }
}

/// Divides a `Field: Value` line at the first colon that is followed by
/// whitespace; the field must be non-empty, and the value starts at the
/// first non-whitespace character after that colon.
pub open spec fn split_line_spec(s: Seq<char>) -> Result<(Seq<char>, Seq<char>), AssParseError> {
    let i = colon_ws_from(s, 1);
    if i == -1 {
        Err(AssParseError::BadLineFormat)
    } else {
        let j = skip_ws_from(s, i + 1);
        if j >= s.len() {
            Err(AssParseError::BadLineFormat)
        } else {
            Ok((s.subrange(0, i), s.subrange(j, s.len() as int)))
        }
    }
}

/// Runtime splitter for [`split_line_spec`].
pub fn split_line(s: &Vec<char>) -> (r: Result<(Vec<char>, Vec<char>), AssParseError>)
    ensures
        match r {
            Ok(p) => split_line_spec(s@) == Ok::<(Seq<char>, Seq<char>), AssParseError>(
                (p.0@, p.1@),
            ),
            Err(e) => split_line_spec(s@) == Err::<(Seq<char>, Seq<char>), AssParseError>(e),
        },
{
    let n = s.len();
    if n < 2 {
        return Err(AssParseError::BadLineFormat);
    }
    let mut i: usize = 1;
    loop
        invariant
            1 <= i <= n - 1,
            n >= 2,
            n == s@.len(),
            colon_ws_from(s@, 1) == colon_ws_from(s@, i as int),
        ensures
            n == s@.len(),
            ({
                let f = colon_ws_from(s@, 1);
                if f == -1 {
                    i + 1 >= n
                } else {
                    i < n && f == i && s@[i as int] == ':' && is_ws_char(s@[i as int + 1])
                }
            }),
        decreases n - i,
    {
        if i + 1 >= n {
            break;
        }
        if s[i] == ':' {
            if is_ws(s[i + 1]) {
                break;
            }
        }
        i = i + 1;
    }
    if i + 1 >= n {
        return Err(AssParseError::BadLineFormat);
    }
    let mut j: usize = i + 1;
    loop
        invariant
            0 <= j <= n,
            n == s@.len(),
            skip_ws_from(s@, i as int + 1) == skip_ws_from(s@, j as int),
        ensures
            j as int == skip_ws_from(s@, i as int + 1),
            j <= n,
        decreases n - j,
    {
        if j >= n {
            break;
        }
        if is_ws(s[j]) {
            j = j + 1;
        } else {
            break;
        }
    }
    if j >= n {
        return Err(AssParseError::BadLineFormat);
    }
    let field = copy_range(s, 0, i);
    let data = copy_range(s, j, n);
    Ok((field, data))
}

} // verus!
