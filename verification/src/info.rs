//! The script-metadata section: typed decoding of its key/value lines and
//! the sparse header they accumulate into. The header keeps the first value
//! written to each field; later duplicates are ignored.

use vstd::prelude::*;
use crate::common::{WrapStyle, YCbCrMatrix};
use crate::error::AssParseError;
use crate::text::{
    chars_eq_str, chars_to_string, dec_str, join_from, join_spec, opt_str_view,
    parse_u32_chars, push_all, push_dec_u64, push_str, u32_parse_spec, views_of,
};

verus! {

broadcast use vstd::string::group_string_axioms;

/// Mathematical model of one decoded metadata line.
pub ghost enum ConfigV {
    Title(Seq<char>),
    ScriptType(Seq<char>),
    WrapStyle(WrapStyle),
    PlayResX(u32),
    PlayResY(u32),
    ScaledBorderAndShadow(bool),
    YCbCrMatrix(YCbCrMatrix),
    ScriptCredit(Seq<char>),
    TranslationCredit(Seq<char>),
    EditingCredit(Seq<char>),
    TimingCredit(Seq<char>),
    SynchPoint(Seq<char>),
    UpdateCredit(Seq<char>),
    UpdateDetails(Seq<char>),
    Kerning(bool),
    Language(Seq<char>),
}

/// One decoded metadata line: which field it sets and the typed value.
#[derive(Debug, Clone, PartialEq)]
pub enum ConfigKind {
    Title(String),
    ScriptType(String),
    WrapStyle(WrapStyle),
    PlayResX(u32),
    PlayResY(u32),
    ScaledBorderAndShadow(bool),
    YCbCrMatrix(YCbCrMatrix),
    ScriptCredit(String),
    TranslationCredit(String),
    EditingCredit(String),
    TimingCredit(String),
    SynchPoint(String),
    UpdateCredit(String),
    UpdateDetails(String),
    Kerning(bool),
    Language(String),
}

impl View for ConfigKind {
    type V = ConfigV;

    open spec fn view(&self) -> ConfigV {
        match self {
            ConfigKind::Title(x) => ConfigV::Title(x@),
            ConfigKind::ScriptType(x) => ConfigV::ScriptType(x@),
            ConfigKind::WrapStyle(x) => ConfigV::WrapStyle(*x),
            ConfigKind::PlayResX(x) => ConfigV::PlayResX(*x),
            ConfigKind::PlayResY(x) => ConfigV::PlayResY(*x),
            ConfigKind::ScaledBorderAndShadow(x) => ConfigV::ScaledBorderAndShadow(*x),
            ConfigKind::YCbCrMatrix(x) => ConfigV::YCbCrMatrix(*x),
            ConfigKind::ScriptCredit(x) => ConfigV::ScriptCredit(x@),
            ConfigKind::TranslationCredit(x) => ConfigV::TranslationCredit(x@),
            ConfigKind::EditingCredit(x) => ConfigV::EditingCredit(x@),
            ConfigKind::TimingCredit(x) => ConfigV::TimingCredit(x@),
            ConfigKind::SynchPoint(x) => ConfigV::SynchPoint(x@),
            ConfigKind::UpdateCredit(x) => ConfigV::UpdateCredit(x@),
            ConfigKind::UpdateDetails(x) => ConfigV::UpdateDetails(x@),
            ConfigKind::Kerning(x) => ConfigV::Kerning(*x),
            ConfigKind::Language(x) => ConfigV::Language(x@),
        }
    }
}

impl ConfigKind {
    /// Which typed value a metadata line's field name and data decode to: an
    /// unknown field name is an error, and a field with a typed codec
    /// rejects data outside the codec.
    pub open spec fn parse_spec(field: Seq<char>, data: Seq<char>) -> Result<
        ConfigV,
        AssParseError,
    > {
        if field == "Title"@ {
            Ok(ConfigV::Title(data))
        } else if field == "ScriptType"@ {
            Ok(ConfigV::ScriptType(data))
        } else if field == "WrapStyle"@ {
            match WrapStyle::parse_spec(data) {
                Ok(w) => Ok(ConfigV::WrapStyle(w)),
                Err(e) => Err(e),
            }
        } else if field == "PlayResX"@ {
            match u32_parse_spec(data) {
                Some(x) => Ok(ConfigV::PlayResX(x)),
                None => Err(AssParseError::BadConfigData),
            }
        } else if field == "PlayResY"@ {
            match u32_parse_spec(data) {
                Some(x) => Ok(ConfigV::PlayResY(x)),
                None => Err(AssParseError::BadConfigData),
            }
        } else if field == "ScaledBorderAndShadow"@ {
            if data == "yes"@ {
                Ok(ConfigV::ScaledBorderAndShadow(true))
            } else if data == "no"@ {
                Ok(ConfigV::ScaledBorderAndShadow(false))
            } else {
                Err(AssParseError::BadConfigData)
            }
        } else if field == "YCbCr Matrix"@ {
            match YCbCrMatrix::parse_spec(data) {
                Ok(m) => Ok(ConfigV::YCbCrMatrix(m)),
                Err(e) => Err(e),
            }
        } else if field == "Original Script"@ {
            Ok(ConfigV::ScriptCredit(data))
        } else if field == "Original Translation"@ {
            Ok(ConfigV::TranslationCredit(data))
        } else if field == "Original Editing"@ {
            Ok(ConfigV::EditingCredit(data))
        } else if field == "Original Timing"@ {
            Ok(ConfigV::TimingCredit(data))
        } else if field == "Synch Point"@ {
            Ok(ConfigV::SynchPoint(data))
        } else if field == "Script Updated By"@ {
            Ok(ConfigV::UpdateCredit(data))
        } else if field == "Update Details"@ {
            Ok(ConfigV::UpdateDetails(data))
        } else if field == "Kerning"@ {
            if data == "yes"@ {
                Ok(ConfigV::Kerning(true))
            } else if data == "no"@ {
                Ok(ConfigV::Kerning(false))
            } else {
                Err(AssParseError::BadConfigData)
            }
        } else if field == "Language"@ {
            Ok(ConfigV::Language(data))
        } else {
            Err(AssParseError::BadConfigField)
        }
    }

    /// Decodes one metadata line, already divided into field name and data.
    pub fn parse(field: &Vec<char>, data: &Vec<char>) -> (r: Result<ConfigKind, AssParseError>)
        ensures
            match r {
                Ok(c) => ConfigKind::parse_spec(field@, data@) == Ok::<ConfigV, AssParseError>(
                    c@,
                ),
                Err(e) => ConfigKind::parse_spec(field@, data@) == Err::<ConfigV, AssParseError>(
                    e,
                ),
            },
    {
        if chars_eq_str(field, "Title") {
            Ok(ConfigKind::Title(chars_to_string(data)))
        } else if chars_eq_str(field, "ScriptType") {
            Ok(ConfigKind::ScriptType(chars_to_string(data)))
        } else if chars_eq_str(field, "WrapStyle") {
            match WrapStyle::parse(data) {
                Ok(w) => Ok(ConfigKind::WrapStyle(w)),
                Err(e) => Err(e),
            }
        } else if chars_eq_str(field, "PlayResX") {
            match parse_u32_chars(data) {
                Some(x) => Ok(ConfigKind::PlayResX(x)),
                None => Err(AssParseError::BadConfigData),
            }
        } else if chars_eq_str(field, "PlayResY") {
            match parse_u32_chars(data) {
                Some(x) => Ok(ConfigKind::PlayResY(x)),
                None => Err(AssParseError::BadConfigData),
            }
        } else if chars_eq_str(field, "ScaledBorderAndShadow") {
            if chars_eq_str(data, "yes") {
                Ok(ConfigKind::ScaledBorderAndShadow(true))
            } else if chars_eq_str(data, "no") {
                Ok(ConfigKind::ScaledBorderAndShadow(false))
            } else {
                Err(AssParseError::BadConfigData)
            }
        } else if chars_eq_str(field, "YCbCr Matrix") {
            match YCbCrMatrix::parse(data) {
                Ok(m) => Ok(ConfigKind::YCbCrMatrix(m)),
                Err(e) => Err(e),
            }
        } else if chars_eq_str(field, "Original Script") {
            Ok(ConfigKind::ScriptCredit(chars_to_string(data)))
        } else if chars_eq_str(field, "Original Translation") {
            Ok(ConfigKind::TranslationCredit(chars_to_string(data)))
        } else if chars_eq_str(field, "Original Editing") {
            Ok(ConfigKind::EditingCredit(chars_to_string(data)))
        } else if chars_eq_str(field, "Original Timing") {
            Ok(ConfigKind::TimingCredit(chars_to_string(data)))
        } else if chars_eq_str(field, "Synch Point") {
            Ok(ConfigKind::SynchPoint(chars_to_string(data)))
        } else if chars_eq_str(field, "Script Updated By") {
            Ok(ConfigKind::UpdateCredit(chars_to_string(data)))
        } else if chars_eq_str(field, "Update Details") {
            Ok(ConfigKind::UpdateDetails(chars_to_string(data)))
        } else if chars_eq_str(field, "Kerning") {
            if chars_eq_str(data, "yes") {
                Ok(ConfigKind::Kerning(true))
            } else if chars_eq_str(data, "no") {
                Ok(ConfigKind::Kerning(false))
            } else {
                Err(AssParseError::BadConfigData)
            }
        } else if chars_eq_str(field, "Language") {
            Ok(ConfigKind::Language(chars_to_string(data)))
        } else {
            Err(AssParseError::BadConfigField)
        }
    }
}

/// Mathematical model of the metadata header.
#[verifier::ext_equal]
pub ghost struct HeaderV {
    pub title: Option<Seq<char>>,
    pub script_type: Option<Seq<char>>,
    pub wrap_style: Option<WrapStyle>,
    pub play_res_x: Option<u32>,
    pub play_res_y: Option<u32>,
    pub scaled_border_and_shadow: Option<bool>,
    pub ycbcr_matrix: Option<YCbCrMatrix>,
    pub script: Option<Seq<char>>,
    pub translation: Option<Seq<char>>,
    pub editing: Option<Seq<char>>,
    pub timing: Option<Seq<char>>,
    pub synch_point: Option<Seq<char>>,
    pub updated_by: Option<Seq<char>>,
    pub update_details: Option<Seq<char>>,
    pub kerning: Option<bool>,
    pub language: Option<Seq<char>>,
}

/// The sparse set of document-level settings: every field independently
/// optional.
#[derive(Debug, Clone)]
pub struct Header {
    pub title: Option<String>,
    pub script_type: Option<String>,
    pub wrap_style: Option<WrapStyle>,
    pub play_res_x: Option<u32>,
    pub play_res_y: Option<u32>,
    pub scaled_border_and_shadow: Option<bool>,
    pub ycbcr_matrix: Option<YCbCrMatrix>,
    pub script: Option<String>,
    pub translation: Option<String>,
    pub editing: Option<String>,
    pub timing: Option<String>,
    pub synch_point: Option<String>,
    pub updated_by: Option<String>,
    pub update_details: Option<String>,
    pub kerning: Option<bool>,
    pub language: Option<String>,
}

impl View for Header {
    type V = HeaderV;

    open spec fn view(&self) -> HeaderV {
        HeaderV {
            title: opt_str_view(self.title),
            script_type: opt_str_view(self.script_type),
            wrap_style: self.wrap_style,
            play_res_x: self.play_res_x,
            play_res_y: self.play_res_y,
            scaled_border_and_shadow: self.scaled_border_and_shadow,
            ycbcr_matrix: self.ycbcr_matrix,
            script: opt_str_view(self.script),
            translation: opt_str_view(self.translation),
            editing: opt_str_view(self.editing),
            timing: opt_str_view(self.timing),
            synch_point: opt_str_view(self.synch_point),
            updated_by: opt_str_view(self.updated_by),
            update_details: opt_str_view(self.update_details),
            kerning: self.kerning,
            language: opt_str_view(self.language),
        }
    }
}

impl Header {
    /// The header with no field present.
    pub open spec fn empty_spec() -> HeaderV {
        HeaderV {
            title: None,
            script_type: None,
            wrap_style: None,
            play_res_x: None,
            play_res_y: None,
            scaled_border_and_shadow: None,
            ycbcr_matrix: None,
            script: None,
            translation: None,
            editing: None,
            timing: None,
            synch_point: None,
            updated_by: None,
            update_details: None,
            kerning: None,
            language: None,
        }
    }

    /// Merging one decoded line into the header: the first value written to
    /// a field wins, and a later duplicate never overwrites it.
    pub open spec fn set_spec(h: HeaderV, c: ConfigV) -> HeaderV {
        match c {
            ConfigV::Title(x) => if h.title is Some {
                h
            } else {
                HeaderV { title: Some(x), ..h }
            },
            ConfigV::ScriptType(x) => if h.script_type is Some {
                h
            } else {
                HeaderV { script_type: Some(x), ..h }
            },
            ConfigV::WrapStyle(x) => if h.wrap_style is Some {
                h
            } else {
                HeaderV { wrap_style: Some(x), ..h }
            },
            ConfigV::PlayResX(x) => if h.play_res_x is Some {
                h
            } else {
                HeaderV { play_res_x: Some(x), ..h }
            },
            ConfigV::PlayResY(x) => if h.play_res_y is Some {
                h
            } else {
                HeaderV { play_res_y: Some(x), ..h }
            },
            ConfigV::ScaledBorderAndShadow(x) => if h.scaled_border_and_shadow is Some {
                h
            } else {
                HeaderV { scaled_border_and_shadow: Some(x), ..h }
            },
            ConfigV::YCbCrMatrix(x) => if h.ycbcr_matrix is Some {
                h
            } else {
                HeaderV { ycbcr_matrix: Some(x), ..h }
            },
            ConfigV::ScriptCredit(x) => if h.script is Some {
                h
            } else {
                HeaderV { script: Some(x), ..h }
            },
            ConfigV::TranslationCredit(x) => if h.translation is Some {
                h
            } else {
                HeaderV { translation: Some(x), ..h }
            },
            ConfigV::EditingCredit(x) => if h.editing is Some {
                h
            } else {
                HeaderV { editing: Some(x), ..h }
            },
            ConfigV::TimingCredit(x) => if h.timing is Some {
                h
            } else {
                HeaderV { timing: Some(x), ..h }
            },
            ConfigV::SynchPoint(x) => if h.synch_point is Some {
                h
            } else {
                HeaderV { synch_point: Some(x), ..h }
            },
            ConfigV::UpdateCredit(x) => if h.updated_by is Some {
                h
            } else {
                HeaderV { updated_by: Some(x), ..h }
            },
            ConfigV::UpdateDetails(x) => if h.update_details is Some {
                h
            } else {
                HeaderV { update_details: Some(x), ..h }
            },
            ConfigV::Kerning(x) => if h.kerning is Some {
                h
            } else {
                HeaderV { kerning: Some(x), ..h }
            },
            ConfigV::Language(x) => if h.language is Some {
                h
            } else {
                HeaderV { language: Some(x), ..h }
            },
        }
    }

    /// Merges one decoded line into the header, first write winning.
    pub fn set(&mut self, c: ConfigKind)
        ensures
            final(self)@ == Header::set_spec(old(self)@, c@),
    {
        match c {
            ConfigKind::Title(x) => {
                if self.title.is_none() {
                    self.title = Some(x);
                    proof {
                        assert(self@ =~= HeaderV { title: Some(x@), ..old(self)@ });
                    }
                }
                return;
            },
            ConfigKind::ScriptType(x) => {
                if self.script_type.is_none() {
                    self.script_type = Some(x);
                    proof {
                        assert(self@ =~= HeaderV { script_type: Some(x@), ..old(self)@ });
                    }
                }
                return;
            },
            ConfigKind::WrapStyle(x) => {
                if self.wrap_style.is_none() {
                    self.wrap_style = Some(x);
                    proof {
                        assert(self@ =~= HeaderV { wrap_style: Some(x), ..old(self)@ });
                    }
                }
                return;
            },
            ConfigKind::PlayResX(x) => {
                if self.play_res_x.is_none() {
                    self.play_res_x = Some(x);
                    proof {
                        assert(self@ =~= HeaderV { play_res_x: Some(x), ..old(self)@ });
                    }
                }
                return;
            },
            ConfigKind::PlayResY(x) => {
                if self.play_res_y.is_none() {
                    self.play_res_y = Some(x);
                    proof {
                        assert(self@ =~= HeaderV { play_res_y: Some(x), ..old(self)@ });
                    }
                }
                return;
            },
            ConfigKind::ScaledBorderAndShadow(x) => {
                if self.scaled_border_and_shadow.is_none() {
                    self.scaled_border_and_shadow = Some(x);
                    proof {
                        assert(self@ =~= HeaderV {
                            scaled_border_and_shadow: Some(x),
                            ..old(self)@
                        });
                    }
                }
                return;
            },
            ConfigKind::YCbCrMatrix(x) => {
                if self.ycbcr_matrix.is_none() {
                    self.ycbcr_matrix = Some(x);
                    proof {
                        assert(self@ =~= HeaderV { ycbcr_matrix: Some(x), ..old(self)@ });
                    }
                }
                return;
            },
            ConfigKind::ScriptCredit(x) => {
                if self.script.is_none() {
                    self.script = Some(x);
                    proof {
                        assert(self@ =~= HeaderV { script: Some(x@), ..old(self)@ });
                    }
                }
                return;
            },
            ConfigKind::TranslationCredit(x) => {
                if self.translation.is_none() {
                    self.translation = Some(x);
                    proof {
                        assert(self@ =~= HeaderV { translation: Some(x@), ..old(self)@ });
                    }
                }
                return;
            },
            ConfigKind::EditingCredit(x) => {
                if self.editing.is_none() {
                    self.editing = Some(x);
                    proof {
                        assert(self@ =~= HeaderV { editing: Some(x@), ..old(self)@ });
                    }
                }
                return;
            },
            ConfigKind::TimingCredit(x) => {
                if self.timing.is_none() {
                    self.timing = Some(x);
                    proof {
                        assert(self@ =~= HeaderV { timing: Some(x@), ..old(self)@ });
                    }
                }
                return;
            },
            ConfigKind::SynchPoint(x) => {
                if self.synch_point.is_none() {
                    self.synch_point = Some(x);
                    proof {
                        assert(self@ =~= HeaderV { synch_point: Some(x@), ..old(self)@ });
                    }
                }
                return;
            },
            ConfigKind::UpdateCredit(x) => {
                if self.updated_by.is_none() {
                    self.updated_by = Some(x);
                    proof {
                        assert(self@ =~= HeaderV { updated_by: Some(x@), ..old(self)@ });
                    }
                }
                return;
            },
            ConfigKind::UpdateDetails(x) => {
                if self.update_details.is_none() {
                    self.update_details = Some(x);
                    proof {
                        assert(self@ =~= HeaderV { update_details: Some(x@), ..old(self)@ });
                    }
                }
                return;
            },
            ConfigKind::Kerning(x) => {
                if self.kerning.is_none() {
                    self.kerning = Some(x);
                    proof {
                        assert(self@ =~= HeaderV { kerning: Some(x), ..old(self)@ });
                    }
                }
                return;
            },
            ConfigKind::Language(x) => {
                if self.language.is_none() {
                    self.language = Some(x);
                    proof {
                        assert(self@ =~= HeaderV { language: Some(x@), ..old(self)@ });
                    }
                }
                return;
            },
        }
    }
}

/// One step of assembling the header's lines.
pub open spec fn with_title(h: HeaderV, s: Seq<Seq<char>>) -> Seq<Seq<char>> {
    if h.title is Some {
        s.push("Title: "@ + h.title->0)
    } else {
        s
    }
}

/// One step of assembling the header's lines.
pub open spec fn with_script_type(h: HeaderV, s: Seq<Seq<char>>) -> Seq<Seq<char>> {
    if h.script_type is Some {
        s.push("ScriptType: "@ + h.script_type->0)
    } else {
        s
    }
}

/// One step of assembling the header's lines.
pub open spec fn with_wrap_style(h: HeaderV, s: Seq<Seq<char>>) -> Seq<Seq<char>> {
    if h.wrap_style is Some {
        s.push("WrapStyle: "@ + h.wrap_style->0.render_spec())
    } else {
        s
    }
}

/// One step of assembling the header's lines.
pub open spec fn with_play_res_x(h: HeaderV, s: Seq<Seq<char>>) -> Seq<Seq<char>> {
    if h.play_res_x is Some {
        s.push("PlayResX: "@ + dec_str(h.play_res_x->0 as int))
    } else {
        s
    }
}

/// One step of assembling the header's lines.
pub open spec fn with_play_res_y(h: HeaderV, s: Seq<Seq<char>>) -> Seq<Seq<char>> {
    if h.play_res_y is Some {
        s.push("PlayResY: "@ + dec_str(h.play_res_y->0 as int))
    } else {
        s
    }
}

/// One step of assembling the header's lines.
pub open spec fn with_scaled_border_and_shadow(h: HeaderV, s: Seq<Seq<char>>) -> Seq<Seq<char>> {
    if h.scaled_border_and_shadow is Some {
        s.push("ScaledBorderAndShadow: "@ + (if h.scaled_border_and_shadow->0 { "yes"@ } else { "no"@ }))
    } else {
        s
    }
}

/// One step of assembling the header's lines.
pub open spec fn with_ycbcr_matrix(h: HeaderV, s: Seq<Seq<char>>) -> Seq<Seq<char>> {
    if h.ycbcr_matrix is Some {
        s.push("YCbCr Matrix: "@ + h.ycbcr_matrix->0.render_spec())
    } else {
        s
    }
}

/// One step of assembling the header's lines.
pub open spec fn with_script(h: HeaderV, s: Seq<Seq<char>>) -> Seq<Seq<char>> {
    if h.script is Some {
        s.push("Original Script: "@ + h.script->0)
    } else {
        s
    }
}

/// One step of assembling the header's lines.
pub open spec fn with_translation(h: HeaderV, s: Seq<Seq<char>>) -> Seq<Seq<char>> {
    if h.translation is Some {
        s.push("Original Translation: "@ + h.translation->0)
    } else {
        s
    }
}

/// One step of assembling the header's lines.
pub open spec fn with_editing(h: HeaderV, s: Seq<Seq<char>>) -> Seq<Seq<char>> {
    if h.editing is Some {
        s.push("Original Editing: "@ + h.editing->0)
    } else {
        s
    }
}

/// One step of assembling the header's lines.
pub open spec fn with_timing(h: HeaderV, s: Seq<Seq<char>>) -> Seq<Seq<char>> {
    if h.timing is Some {
        s.push("Original Timing: "@ + h.timing->0)
    } else {
        s
    }
}

/// One step of assembling the header's lines.
pub open spec fn with_synch_point(h: HeaderV, s: Seq<Seq<char>>) -> Seq<Seq<char>> {
    if h.synch_point is Some {
        s.push("Synch Point: "@ + h.synch_point->0)
    } else {
        s
    }
}

/// One step of assembling the header's lines.
pub open spec fn with_updated_by(h: HeaderV, s: Seq<Seq<char>>) -> Seq<Seq<char>> {
    if h.updated_by is Some {
        s.push("Script Updated By: "@ + h.updated_by->0)
    } else {
        s
    }
}

/// One step of assembling the header's lines.
pub open spec fn with_update_details(h: HeaderV, s: Seq<Seq<char>>) -> Seq<Seq<char>> {
    if h.update_details is Some {
        s.push("Update Details: "@ + h.update_details->0)
    } else {
        s
    }
}

/// One step of assembling the header's lines.
pub open spec fn with_kerning(h: HeaderV, s: Seq<Seq<char>>) -> Seq<Seq<char>> {
    if h.kerning is Some {
        s.push("Kerning: "@ + (if h.kerning->0 { "yes"@ } else { "no"@ }))
    } else {
        s
    }
}

/// One step of assembling the header's lines.
pub open spec fn with_language(h: HeaderV, s: Seq<Seq<char>>) -> Seq<Seq<char>> {
    if h.language is Some {
        s.push("Language: "@ + h.language->0)
    } else {
        s
    }
}

impl Header {
    /// The lines the header contributes to the rendered document, one per
    /// present field, in the fixed canonical order.
    pub open spec fn line_items_spec(h: HeaderV) -> Seq<Seq<char>> {
        with_language(h, with_kerning(h, with_update_details(h, with_updated_by(h, with_synch_point(h, with_timing(h, with_editing(h, with_translation(h, with_script(h, with_ycbcr_matrix(h, with_scaled_border_and_shadow(h, with_play_res_y(h, with_play_res_x(h, with_wrap_style(h, with_script_type(h, with_title(h, Seq::<Seq<char>>::empty()))))))))))))))))
    }

    /// The header's chunk of the rendered document: its lines joined by
    /// newlines (the empty sequence when no field is present).
    pub open spec fn render_spec(h: HeaderV) -> Seq<char> {
        join_spec(Header::line_items_spec(h), "\n"@)
    }

    /// Adds this field's line when the field is present.
    fn push_line_title(&self, lines: &mut Vec<Vec<char>>)
        ensures
            views_of(final(lines)@) == with_title(self@, views_of(old(lines)@)),
    {
        if let Some(x) = &self.title {
            let mut line: Vec<char> = Vec::new();
            push_str(&mut line, "Title: ");
            push_str(&mut line, x.as_str());
            proof {
                assert(line@ =~= "Title: "@ + x@);
                assert(views_of(lines@.push(line)) =~= views_of(lines@).push(line@));
            }
            lines.push(line);
        }
    }

    /// Adds this field's line when the field is present.
    fn push_line_script_type(&self, lines: &mut Vec<Vec<char>>)
        ensures
            views_of(final(lines)@) == with_script_type(self@, views_of(old(lines)@)),
    {
        if let Some(x) = &self.script_type {
            let mut line: Vec<char> = Vec::new();
            push_str(&mut line, "ScriptType: ");
            push_str(&mut line, x.as_str());
            proof {
                assert(line@ =~= "ScriptType: "@ + x@);
                assert(views_of(lines@.push(line)) =~= views_of(lines@).push(line@));
            }
            lines.push(line);
        }
    }

    /// Adds this field's line when the field is present.
    fn push_line_wrap_style(&self, lines: &mut Vec<Vec<char>>)
        ensures
            views_of(final(lines)@) == with_wrap_style(self@, views_of(old(lines)@)),
    {
        if let Some(x) = &self.wrap_style {
            let mut line: Vec<char> = Vec::new();
            push_str(&mut line, "WrapStyle: ");
            x.push_render(&mut line);
            proof {
                assert(line@ =~= "WrapStyle: "@ + x.render_spec());
                assert(views_of(lines@.push(line)) =~= views_of(lines@).push(line@));
            }
            lines.push(line);
        }
    }

    /// Adds this field's line when the field is present.
    fn push_line_play_res_x(&self, lines: &mut Vec<Vec<char>>)
        ensures
            views_of(final(lines)@) == with_play_res_x(self@, views_of(old(lines)@)),
    {
        if let Some(x) = self.play_res_x {
            let mut line: Vec<char> = Vec::new();
            push_str(&mut line, "PlayResX: ");
            push_dec_u64(&mut line, x as u64);
            proof {
                assert(line@ =~= "PlayResX: "@ + dec_str(x as int));
                assert(views_of(lines@.push(line)) =~= views_of(lines@).push(line@));
            }
            lines.push(line);
        }
    }

    /// Adds this field's line when the field is present.
    fn push_line_play_res_y(&self, lines: &mut Vec<Vec<char>>)
        ensures
            views_of(final(lines)@) == with_play_res_y(self@, views_of(old(lines)@)),
    {
        if let Some(x) = self.play_res_y {
            let mut line: Vec<char> = Vec::new();
            push_str(&mut line, "PlayResY: ");
            push_dec_u64(&mut line, x as u64);
            proof {
                assert(line@ =~= "PlayResY: "@ + dec_str(x as int));
                assert(views_of(lines@.push(line)) =~= views_of(lines@).push(line@));
            }
            lines.push(line);
        }
    }

    /// Adds this field's line when the field is present.
    fn push_line_scaled_border_and_shadow(&self, lines: &mut Vec<Vec<char>>)
        ensures
            views_of(final(lines)@) == with_scaled_border_and_shadow(self@, views_of(old(lines)@)),
    {
        if let Some(x) = self.scaled_border_and_shadow {
            let mut line: Vec<char> = Vec::new();
            push_str(&mut line, "ScaledBorderAndShadow: ");
            push_str(&mut line, if x { "yes" } else { "no" });
            proof {
                assert(line@ =~= "ScaledBorderAndShadow: "@ + (if x { "yes"@ } else { "no"@ }));
                assert(views_of(lines@.push(line)) =~= views_of(lines@).push(line@));
            }
            lines.push(line);
        }
    }

    /// Adds this field's line when the field is present.
    fn push_line_ycbcr_matrix(&self, lines: &mut Vec<Vec<char>>)
        ensures
            views_of(final(lines)@) == with_ycbcr_matrix(self@, views_of(old(lines)@)),
    {
        if let Some(x) = &self.ycbcr_matrix {
            let mut line: Vec<char> = Vec::new();
            push_str(&mut line, "YCbCr Matrix: ");
            x.push_render(&mut line);
            proof {
                assert(line@ =~= "YCbCr Matrix: "@ + x.render_spec());
                assert(views_of(lines@.push(line)) =~= views_of(lines@).push(line@));
            }
            lines.push(line);
        }
    }

    /// Adds this field's line when the field is present.
    fn push_line_script(&self, lines: &mut Vec<Vec<char>>)
        ensures
            views_of(final(lines)@) == with_script(self@, views_of(old(lines)@)),
    {
        if let Some(x) = &self.script {
            let mut line: Vec<char> = Vec::new();
            push_str(&mut line, "Original Script: ");
            push_str(&mut line, x.as_str());
            proof {
                assert(line@ =~= "Original Script: "@ + x@);
                assert(views_of(lines@.push(line)) =~= views_of(lines@).push(line@));
            }
            lines.push(line);
        }
    }

    /// Adds this field's line when the field is present.
    fn push_line_translation(&self, lines: &mut Vec<Vec<char>>)
        ensures
            views_of(final(lines)@) == with_translation(self@, views_of(old(lines)@)),
    {
        if let Some(x) = &self.translation {
            let mut line: Vec<char> = Vec::new();
            push_str(&mut line, "Original Translation: ");
            push_str(&mut line, x.as_str());
            proof {
                assert(line@ =~= "Original Translation: "@ + x@);
                assert(views_of(lines@.push(line)) =~= views_of(lines@).push(line@));
            }
            lines.push(line);
        }
    }

    /// Adds this field's line when the field is present.
    fn push_line_editing(&self, lines: &mut Vec<Vec<char>>)
        ensures
            views_of(final(lines)@) == with_editing(self@, views_of(old(lines)@)),
    {
        if let Some(x) = &self.editing {
            let mut line: Vec<char> = Vec::new();
            push_str(&mut line, "Original Editing: ");
            push_str(&mut line, x.as_str());
            proof {
                assert(line@ =~= "Original Editing: "@ + x@);
                assert(views_of(lines@.push(line)) =~= views_of(lines@).push(line@));
            }
            lines.push(line);
        }
    }

    /// Adds this field's line when the field is present.
    fn push_line_timing(&self, lines: &mut Vec<Vec<char>>)
        ensures
            views_of(final(lines)@) == with_timing(self@, views_of(old(lines)@)),
    {
        if let Some(x) = &self.timing {
            let mut line: Vec<char> = Vec::new();
            push_str(&mut line, "Original Timing: ");
            push_str(&mut line, x.as_str());
            proof {
                assert(line@ =~= "Original Timing: "@ + x@);
                assert(views_of(lines@.push(line)) =~= views_of(lines@).push(line@));
            }
            lines.push(line);
        }
    }

    /// Adds this field's line when the field is present.
    fn push_line_synch_point(&self, lines: &mut Vec<Vec<char>>)
        ensures
            views_of(final(lines)@) == with_synch_point(self@, views_of(old(lines)@)),
    {
        if let Some(x) = &self.synch_point {
            let mut line: Vec<char> = Vec::new();
            push_str(&mut line, "Synch Point: ");
            push_str(&mut line, x.as_str());
            proof {
                assert(line@ =~= "Synch Point: "@ + x@);
                assert(views_of(lines@.push(line)) =~= views_of(lines@).push(line@));
            }
            lines.push(line);
        }
    }

    /// Adds this field's line when the field is present.
    fn push_line_updated_by(&self, lines: &mut Vec<Vec<char>>)
        ensures
            views_of(final(lines)@) == with_updated_by(self@, views_of(old(lines)@)),
    {
        if let Some(x) = &self.updated_by {
            let mut line: Vec<char> = Vec::new();
            push_str(&mut line, "Script Updated By: ");
            push_str(&mut line, x.as_str());
            proof {
                assert(line@ =~= "Script Updated By: "@ + x@);
                assert(views_of(lines@.push(line)) =~= views_of(lines@).push(line@));
            }
            lines.push(line);
        }
    }

    /// Adds this field's line when the field is present.
    fn push_line_update_details(&self, lines: &mut Vec<Vec<char>>)
        ensures
            views_of(final(lines)@) == with_update_details(self@, views_of(old(lines)@)),
    {
        if let Some(x) = &self.update_details {
            let mut line: Vec<char> = Vec::new();
            push_str(&mut line, "Update Details: ");
            push_str(&mut line, x.as_str());
            proof {
                assert(line@ =~= "Update Details: "@ + x@);
                assert(views_of(lines@.push(line)) =~= views_of(lines@).push(line@));
            }
            lines.push(line);
        }
    }

    /// Adds this field's line when the field is present.
    fn push_line_kerning(&self, lines: &mut Vec<Vec<char>>)
        ensures
            views_of(final(lines)@) == with_kerning(self@, views_of(old(lines)@)),
    {
        if let Some(x) = self.kerning {
            let mut line: Vec<char> = Vec::new();
            push_str(&mut line, "Kerning: ");
            push_str(&mut line, if x { "yes" } else { "no" });
            proof {
                assert(line@ =~= "Kerning: "@ + (if x { "yes"@ } else { "no"@ }));
                assert(views_of(lines@.push(line)) =~= views_of(lines@).push(line@));
            }
            lines.push(line);
        }
    }

    /// Adds this field's line when the field is present.
    fn push_line_language(&self, lines: &mut Vec<Vec<char>>)
        ensures
            views_of(final(lines)@) == with_language(self@, views_of(old(lines)@)),
    {
        if let Some(x) = &self.language {
            let mut line: Vec<char> = Vec::new();
            push_str(&mut line, "Language: ");
            push_str(&mut line, x.as_str());
            proof {
                assert(line@ =~= "Language: "@ + x@);
                assert(views_of(lines@.push(line)) =~= views_of(lines@).push(line@));
            }
            lines.push(line);
        }
    }

    /// Appends the rendered header to `out`.
    pub fn push_render(&self, out: &mut Vec<char>)
        ensures
            final(out)@ == old(out)@ + Header::render_spec(self@),
    {
        let mut lines: Vec<Vec<char>> = Vec::new();
        proof {
            assert(views_of(lines@) =~= Seq::<Seq<char>>::empty());
        }
        self.push_line_title(&mut lines);
        self.push_line_script_type(&mut lines);
        self.push_line_wrap_style(&mut lines);
        self.push_line_play_res_x(&mut lines);
        self.push_line_play_res_y(&mut lines);
        self.push_line_scaled_border_and_shadow(&mut lines);
        self.push_line_ycbcr_matrix(&mut lines);
        self.push_line_script(&mut lines);
        self.push_line_translation(&mut lines);
        self.push_line_editing(&mut lines);
        self.push_line_timing(&mut lines);
        self.push_line_synch_point(&mut lines);
        self.push_line_updated_by(&mut lines);
        self.push_line_update_details(&mut lines);
        self.push_line_kerning(&mut lines);
        self.push_line_language(&mut lines);
        proof {
            assert(views_of(lines@) == Header::line_items_spec(self@));
        }
        let joined = join_from(&lines, 0, '\n');
        proof {
            reveal_strlit("\n");
            assert("\n"@ =~= seq!['\n']);
            assert(views_of(lines@).subrange(0, lines@.len() as int) =~= views_of(lines@));
        }
        push_all(out, &joined);
    }
}

impl Default for Header {
    /// The empty header.
    fn default() -> (h: Header)
        ensures
            h@ == Header::empty_spec(),
    {
        let h = Header {
            title: None,
            script_type: None,
            wrap_style: None,
            play_res_x: None,
            play_res_y: None,
            scaled_border_and_shadow: None,
            ycbcr_matrix: None,
            script: None,
            translation: None,
            editing: None,
            timing: None,
            synch_point: None,
            updated_by: None,
            update_details: None,
            kerning: None,
            language: None,
        };
        proof {
            assert(h@ =~= Header::empty_spec());
        }
        h
    }
}

/// Whether two decoded lines address the same header field.
pub open spec fn same_field(c1: ConfigV, c2: ConfigV) -> bool {
    match (c1, c2) {
        (ConfigV::Title(_), ConfigV::Title(_)) => true,
        (ConfigV::ScriptType(_), ConfigV::ScriptType(_)) => true,
        (ConfigV::WrapStyle(_), ConfigV::WrapStyle(_)) => true,
        (ConfigV::PlayResX(_), ConfigV::PlayResX(_)) => true,
        (ConfigV::PlayResY(_), ConfigV::PlayResY(_)) => true,
        (ConfigV::ScaledBorderAndShadow(_), ConfigV::ScaledBorderAndShadow(_)) => true,
        (ConfigV::YCbCrMatrix(_), ConfigV::YCbCrMatrix(_)) => true,
        (ConfigV::ScriptCredit(_), ConfigV::ScriptCredit(_)) => true,
        (ConfigV::TranslationCredit(_), ConfigV::TranslationCredit(_)) => true,
        (ConfigV::EditingCredit(_), ConfigV::EditingCredit(_)) => true,
        (ConfigV::TimingCredit(_), ConfigV::TimingCredit(_)) => true,
        (ConfigV::SynchPoint(_), ConfigV::SynchPoint(_)) => true,
        (ConfigV::UpdateCredit(_), ConfigV::UpdateCredit(_)) => true,
        (ConfigV::UpdateDetails(_), ConfigV::UpdateDetails(_)) => true,
        (ConfigV::Kerning(_), ConfigV::Kerning(_)) => true,
        (ConfigV::Language(_), ConfigV::Language(_)) => true,
        _ => false,
    }
}

/// Setting a field and then setting the same field again keeps the first
/// value: the second write is ignored, whatever it holds.
///
/// Law: header merging is first-write-wins.
pub proof fn lemma_header_first_write_wins(h: HeaderV, c1: ConfigV, c2: ConfigV)
    requires
        same_field(c1, c2),
    ensures
        Header::set_spec(Header::set_spec(h, c1), c2) == Header::set_spec(h, c1),
{
}

} // verus!
