//! Parser and serializer for the ASS subtitle track text format: a
//! line-oriented format with a script-metadata section, a typed style table
//! and a typed event table, each with its own declared column order.

use vstd::prelude::*;

pub mod common;
pub mod error;
pub mod event;
pub mod info;
pub mod parser;
pub mod style;
pub mod text;
pub mod track;

pub use common::{ABGR, Alignment, BorderStyle, Encoding, Timecode, WrapStyle, YCbCrMatrix};
pub use error::AssParseError;
pub use info::{ConfigKind, Header};
pub use parser::ParserState;
pub use track::AssTrack;

use crate::text::{push_str, str_to_chars, chars_to_string};

verus! {

broadcast use vstd::string::group_string_axioms;

/// The two file names a run works on.
#[derive(Debug)]
pub struct Config {
    pub input: String,
    pub output: String,
}

/// Whether a path ends in the `.ass` extension.
pub open spec fn ends_with_ass(s: Seq<char>) -> bool {
    s.len() >= 4 && s.subrange(s.len() - 4, s.len() as int) == ".ass"@
}

/// Runtime test for [`ends_with_ass`].
fn has_ass_extension(s: &String) -> (b: bool)
    ensures
        b == ends_with_ass(s@),
{
    let v = str_to_chars(s.as_str());
    let n = v.len();
    if n < 4 {
        return false;
    }
    proof {
        reveal_strlit(".ass");
    }
    let b = v[n - 4] == '.' && v[n - 3] == 'a' && v[n - 2] == 's' && v[n - 1] == 's';
    proof {
        let sub = s@.subrange(s@.len() - 4, s@.len() as int);
        assert(sub[0] == s@[s@.len() - 4] && sub[1] == s@[s@.len() - 3] && sub[2] == s@[s@.len()
            - 2] && sub[3] == s@[s@.len() - 1]);
        if b {
            assert(sub =~= ".ass"@);
        } else if sub == ".ass"@ {
            assert(sub[0] == '.' && sub[1] == 'a' && sub[2] == 's' && sub[3] == 's');
            assert(false);
        }
    }
    b
}

fn extension_error(s: &String) -> (m: String)
    ensures
        m@ == "file extension must be .ass : "@ + s@,
{
    let mut out: Vec<char> = Vec::new();
    push_str(&mut out, "file extension must be .ass : ");
    push_str(&mut out, s.as_str());
    chars_to_string(&out)
}

impl Config {
    /// Reads the input and output paths from an argument list: exactly two
    /// paths after the program name, each with the `.ass` extension, else a
    /// message naming what is wrong.
    pub fn new(args: &Vec<String>) -> (r: Result<Config, String>)
        ensures
            match r {
                Ok(c) => args@.len() == 3 && ends_with_ass(args@[1]@) && ends_with_ass(
                    args@[2]@,
                ) && c.input@ == args@[1]@ && c.output@ == args@[2]@,
                Err(m) => (args@.len() != 3 && m@ == "not enough arguments"@) || (args@.len() == 3
                    && !ends_with_ass(args@[1]@) && m@ == "file extension must be .ass : "@
                    + args@[1]@) || (args@.len() == 3 && ends_with_ass(args@[1]@)
                    && !ends_with_ass(args@[2]@) && m@ == "file extension must be .ass : "@
                    + args@[2]@),
            },
    {
        if args.len() != 3 {
            return Err(String::from_str("not enough arguments"));
        }
        let input = args[1].clone();
        if !has_ass_extension(&input) {
            return Err(extension_error(&input));
        }
        let output = args[2].clone();
        if !has_ass_extension(&output) {
            return Err(extension_error(&output));
        }
        Ok(Config { input, output })
    }
}

/// The text with a leading byte-order mark removed, if one is there.
pub open spec fn strip_bom_spec(s: Seq<char>) -> Seq<char> {
    if s.len() >= 1 && s[0] == '\u{feff}' {
        s.subrange(1, s.len() as int)
    } else {
        s
    }
}

/// Removes a leading byte-order mark.
pub fn strip_bom(s: &str) -> (r: &str)
    ensures
        r@ == strip_bom_spec(s@),
{
    let n = s.unicode_len();
    if n >= 1 && s.get_char(0) == '\u{feff}' {
        s.substring_char(1, n)
    } else {
        s
    }
}

} // verus!
