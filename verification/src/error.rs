//! The error type shared by every decoder in the crate. Fatal errors abort
//! the whole parse; every other variant is recoverable and only drops the
//! offending line.

use vstd::prelude::*;
use crate::event;
use crate::text;

verus! {

broadcast use vstd::string::group_string_axioms;

#[derive(Debug, Clone, Copy, PartialEq, Eq, Structural)]
pub enum AssParseError {
    BadAlignment,
    BadAssBool,
    BadBorderStyle,
    BadColourCode,
    BadConfigData,
    BadConfigField,
    BadEncoding,
    BadEventToken,
    BadLineFormat,
    BadStyleToken,
    BadTimeCode,
    BadWrapStyle,
    BadYCbCrMatrix,
    EnteredNoneState,
    EncounteredIllegalHeader,
    EventNotMatchFormat(event::Token),
    EventTooShort,
    EventTooLong,
    NoParserState,
    StyleNotMatchFormat,
    TextNotLastToken,
    UnknownSection,
}

impl AssParseError {
    /// Human-readable description of the error.
    pub open spec fn message_spec(self) -> Seq<char> {
        match self {
            AssParseError::BadAlignment => "Invalid alignment value."@,
            AssParseError::BadAssBool => "Invalid ass-style bool. -1 is true, 0 is false."@,
            AssParseError::BadBorderStyle => "Invalid border style value."@,
            AssParseError::BadColourCode => "Invalid colour code."@,
            AssParseError::BadConfigData => "Invalid data for field type."@,
            AssParseError::BadConfigField => "Unkown or unsupported config field."@,
            AssParseError::BadEncoding => "Invalid encoding value."@,
            AssParseError::BadEventToken => "Invalid event token in format line."@,
            AssParseError::BadLineFormat => "Line does not match ASS Field: Data format."@,
            AssParseError::BadStyleToken => "Invalid style token in format line."@,
            AssParseError::BadTimeCode => "Invalid time code."@,
            AssParseError::BadWrapStyle => "Invalid wrap style value."@,
            AssParseError::BadYCbCrMatrix => "Invalid or YCbCr Matrix value."@,
            AssParseError::EnteredNoneState => "Parser recieved illegal None state"@,
            AssParseError::EncounteredIllegalHeader
                => "Encountered a header while in an incompatible state."@,
            AssParseError::EventNotMatchFormat(t)
                => "Event line does not match format at token "@ + t.name_spec(),
            AssParseError::EventTooShort
                => "Event line does not have entry for every field in Format."@,
            AssParseError::EventTooLong => "Event has more fields than Format defines."@,
            AssParseError::NoParserState => "Attempted to parse line while in None state."@,
            AssParseError::StyleNotMatchFormat => "Style line does not match format."@,
            AssParseError::TextNotLastToken => "The last token in an event format must be Text"@,
            AssParseError::UnknownSection => "Line is in unkown section header."@,
        }
    }

    /// Renders the description of the error.
    pub fn message(&self) -> (r: String)
        ensures
            r@ == self.message_spec(),
    {
        match self {
            AssParseError::EventNotMatchFormat(t) => {
                let mut out: Vec<char> = Vec::new();
                text::push_str(&mut out, "Event line does not match format at token ");
                t.push_name(&mut out);
                text::chars_to_string(&out)
            },
            AssParseError::BadAlignment => String::from_str("Invalid alignment value."),
            AssParseError::BadAssBool => String::from_str(
                "Invalid ass-style bool. -1 is true, 0 is false.",
            ),
            AssParseError::BadBorderStyle => String::from_str("Invalid border style value."),
            AssParseError::BadColourCode => String::from_str("Invalid colour code."),
            AssParseError::BadConfigData => String::from_str("Invalid data for field type."),
            AssParseError::BadConfigField => String::from_str(
                "Unkown or unsupported config field.",
            ),
            AssParseError::BadEncoding => String::from_str("Invalid encoding value."),
            AssParseError::BadEventToken => String::from_str(
                "Invalid event token in format line.",
            ),
            AssParseError::BadLineFormat => String::from_str(
                "Line does not match ASS Field: Data format.",
            ),
            AssParseError::BadStyleToken => String::from_str(
                "Invalid style token in format line.",
            ),
            AssParseError::BadTimeCode => String::from_str("Invalid time code."),
            AssParseError::BadWrapStyle => String::from_str("Invalid wrap style value."),
            AssParseError::BadYCbCrMatrix => String::from_str("Invalid or YCbCr Matrix value."),
            AssParseError::EnteredNoneState => String::from_str(
                "Parser recieved illegal None state",
            ),
            AssParseError::EncounteredIllegalHeader => String::from_str(
                "Encountered a header while in an incompatible state.",
            ),
            AssParseError::EventTooShort => String::from_str(
                "Event line does not have entry for every field in Format.",
            ),
            AssParseError::EventTooLong => String::from_str(
                "Event has more fields than Format defines.",
            ),
            AssParseError::NoParserState => String::from_str(
                "Attempted to parse line while in None state.",
            ),
            AssParseError::StyleNotMatchFormat => String::from_str(
                "Style line does not match format.",
            ),
            AssParseError::TextNotLastToken => String::from_str(
                "The last token in an event format must be Text",
            ),
            AssParseError::UnknownSection => String::from_str(
                "Line is in unkown section header.",
            ),
        }
    }
}

} // verus!
