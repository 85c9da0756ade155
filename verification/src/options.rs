//! The configuration aggregate that callers allocate and mutate field by
//! field before invoking the rendering engine.
//!
//! Every field is identified by a (category, name, kind) triple; a spec-level
//! registry of field identifiers drives one generic update function per kind,
//! so the uniform setter contract is stated once and proved for the whole
//! surface at once.

use vstd::prelude::*;

verus! {

/// Extension options: CommonMark extensions the engine may enable.
pub struct ExtensionOptions {
    pub strikethrough: bool,
    pub table: bool,
    pub autolink: bool,
    pub tasklist: bool,
    /// Prefix for generated heading anchors; text supplied through the
    /// boundary, held as validated UTF-8 bytes.
    pub header_id_prefix: Option<Vec<u8>>,
}

/// Parse-time options.
pub struct ParseOptions {
    pub smart: bool,
    /// Info string applied to fenced code blocks that carry none.
    pub default_info_string: Option<Vec<u8>>,
}

/// Render-time options.
pub struct RenderOptions {
    pub hardbreaks: bool,
    pub github_pre_lang: bool,
    pub width: usize,
}

/// The configuration aggregate: one sub-structure per option category.
pub struct Options {
    pub extension: ExtensionOptions,
    pub parse: ParseOptions,
    pub render: RenderOptions,
}

/// Mathematical model of the extension category.
pub ghost struct ExtensionOptionsV {
    pub strikethrough: bool,
    pub table: bool,
    pub autolink: bool,
    pub tasklist: bool,
    pub header_id_prefix: Option<Seq<u8>>,
}

/// Mathematical model of the parse category.
pub ghost struct ParseOptionsV {
    pub smart: bool,
    pub default_info_string: Option<Seq<u8>>,
}

/// Mathematical model of the render category.
pub ghost struct RenderOptionsV {
    pub hardbreaks: bool,
    pub github_pre_lang: bool,
    pub width: usize,
}

/// Mathematical model of the whole configuration.
pub ghost struct OptionsV {
    pub extension: ExtensionOptionsV,
    pub parse: ParseOptionsV,
    pub render: RenderOptionsV,
}

impl View for ExtensionOptions {
    type V = ExtensionOptionsV;

    open spec fn view(&self) -> ExtensionOptionsV {
        ExtensionOptionsV {
            strikethrough: self.strikethrough,
            table: self.table,
            autolink: self.autolink,
            tasklist: self.tasklist,
            header_id_prefix: match self.header_id_prefix {
                Some(v) => Some(v@),
                None => None,
            },
        }
    }
}

impl View for ParseOptions {
    type V = ParseOptionsV;

    open spec fn view(&self) -> ParseOptionsV {
        ParseOptionsV {
            smart: self.smart,
            default_info_string: match self.default_info_string {
                Some(v) => Some(v@),
                None => None,
            },
        }
    }
}

impl View for RenderOptions {
    type V = RenderOptionsV;

    open spec fn view(&self) -> RenderOptionsV {
        RenderOptionsV {
            hardbreaks: self.hardbreaks,
            github_pre_lang: self.github_pre_lang,
            width: self.width,
        }
    }
}

impl View for Options {
    type V = OptionsV;

    open spec fn view(&self) -> OptionsV {
        OptionsV { extension: self.extension@, parse: self.parse@, render: self.render@ }
    }
}

/// Identifier of a boolean configuration field.
pub enum BoolField {
    ExtensionStrikethrough,
    ExtensionTable,
    ExtensionAutolink,
    ExtensionTasklist,
    ParseSmart,
    RenderHardbreaks,
    RenderGithubPreLang,
}

/// Identifier of an unsigned-size configuration field.
pub enum SizeField {
    RenderWidth,
}

/// Identifier of an optional-text configuration field.
pub enum TextField {
    ExtensionHeaderIdPrefix,
    ParseDefaultInfoString,
}

/// The value of the boolean field `f` in configuration `o`.
pub open spec fn get_bool(o: OptionsV, f: BoolField) -> bool {
    match f {
        BoolField::ExtensionStrikethrough => o.extension.strikethrough,
        BoolField::ExtensionTable => o.extension.table,
        BoolField::ExtensionAutolink => o.extension.autolink,
        BoolField::ExtensionTasklist => o.extension.tasklist,
        BoolField::ParseSmart => o.parse.smart,
        BoolField::RenderHardbreaks => o.render.hardbreaks,
        BoolField::RenderGithubPreLang => o.render.github_pre_lang,
    }
}

/// The value of the unsigned-size field `f` in configuration `o`.
pub open spec fn get_size(o: OptionsV, f: SizeField) -> usize {
    match f {
        SizeField::RenderWidth => o.render.width,
    }
}

/// The value of the optional-text field `f` in configuration `o`.
pub open spec fn get_text(o: OptionsV, f: TextField) -> Option<Seq<u8>> {
    match f {
        TextField::ExtensionHeaderIdPrefix => o.extension.header_id_prefix,
        TextField::ParseDefaultInfoString => o.parse.default_info_string,
    }
}

/// Configuration `o` with the boolean field `f` set to `v` and every other
/// field unchanged.
pub open spec fn set_bool(o: OptionsV, f: BoolField, v: bool) -> OptionsV {
    match f {
        BoolField::ExtensionStrikethrough => OptionsV {
            extension: ExtensionOptionsV { strikethrough: v, ..o.extension },
            ..o
        },
        BoolField::ExtensionTable => OptionsV {
            extension: ExtensionOptionsV { table: v, ..o.extension },
            ..o
        },
        BoolField::ExtensionAutolink => OptionsV {
            extension: ExtensionOptionsV { autolink: v, ..o.extension },
            ..o
        },
        BoolField::ExtensionTasklist => OptionsV {
            extension: ExtensionOptionsV { tasklist: v, ..o.extension },
            ..o
        },
        BoolField::ParseSmart => OptionsV { parse: ParseOptionsV { smart: v, ..o.parse }, ..o },
        BoolField::RenderHardbreaks => OptionsV {
            render: RenderOptionsV { hardbreaks: v, ..o.render },
            ..o
        },
        BoolField::RenderGithubPreLang => OptionsV {
            render: RenderOptionsV { github_pre_lang: v, ..o.render },
            ..o
        },
    }
}

/// Configuration `o` with the unsigned-size field `f` set to `v` and every
/// other field unchanged.
pub open spec fn set_size(o: OptionsV, f: SizeField, v: usize) -> OptionsV {
    match f {
        SizeField::RenderWidth => OptionsV { render: RenderOptionsV { width: v, ..o.render }, ..o },
    }
}

/// Configuration `o` with the optional-text field `f` set to `Some(t)` and
/// every other field unchanged.
pub open spec fn set_text(o: OptionsV, f: TextField, t: Seq<u8>) -> OptionsV {
    match f {
        TextField::ExtensionHeaderIdPrefix => OptionsV {
            extension: ExtensionOptionsV { header_id_prefix: Some(t), ..o.extension },
            ..o
        },
        TextField::ParseDefaultInfoString => OptionsV {
            parse: ParseOptionsV { default_info_string: Some(t), ..o.parse },
            ..o
        },
    }
}

/// The configuration in which every boolean field is off, every text field is
/// absent, and every size field is zero.
pub open spec fn default_options() -> OptionsV {
    OptionsV {
        extension: ExtensionOptionsV {
            strikethrough: false,
            table: false,
            autolink: false,
            tasklist: false,
            header_id_prefix: None,
        },
        parse: ParseOptionsV { smart: false, default_info_string: None },
        render: RenderOptionsV { hardbreaks: false, github_pre_lang: false, width: 0 },
    }
}

impl Options {
    /// Allocates a fresh configuration with every option at its default.
    pub fn new() -> (o: Options)
        ensures
            o@ == default_options(),
    {
        Options {
            extension: ExtensionOptions {
                strikethrough: false,
                table: false,
                autolink: false,
                tasklist: false,
                header_id_prefix: None,
            },
            parse: ParseOptions { smart: false, default_info_string: None },
            render: RenderOptions { hardbreaks: false, github_pre_lang: false, width: 0 },
        }
    }
}

impl Default for Options {
    /// The default configuration is the freshly allocated one.
    fn default() -> (o: Options)
        ensures
            o@ == default_options(),
    {
        Options::new()
    }
}

/// Writing a boolean field changes that field to the written value and
/// interferes with no other field of any kind.
pub proof fn lemma_bool_setter_frame(o: OptionsV, f: BoolField, v: bool)
    ensures
        get_bool(set_bool(o, f, v), f) == v,
        forall|g: BoolField| g != f ==> get_bool(set_bool(o, f, v), g) == get_bool(o, g),
        forall|g: SizeField| get_size(set_bool(o, f, v), g) == get_size(o, g),
        forall|g: TextField| get_text(set_bool(o, f, v), g) == get_text(o, g),
{
}

/// Writing an unsigned-size field changes that field to the written value and
/// interferes with no other field of any kind.
pub proof fn lemma_size_setter_frame(o: OptionsV, f: SizeField, v: usize)
    ensures
        get_size(set_size(o, f, v), f) == v,
        forall|g: SizeField| g != f ==> get_size(set_size(o, f, v), g) == get_size(o, g),
        forall|g: BoolField| get_bool(set_size(o, f, v), g) == get_bool(o, g),
        forall|g: TextField| get_text(set_size(o, f, v), g) == get_text(o, g),
{
}

/// Writing an optional-text field stores exactly the supplied text and
/// interferes with no other field of any kind.
pub proof fn lemma_text_setter_frame(o: OptionsV, f: TextField, t: Seq<u8>)
    ensures
        get_text(set_text(o, f, t), f) == Some(t),
        forall|g: TextField| g != f ==> get_text(set_text(o, f, t), g) == get_text(o, g),
        forall|g: BoolField| get_bool(set_text(o, f, t), g) == get_bool(o, g),
        forall|g: SizeField| get_size(set_text(o, f, t), g) == get_size(o, g),
{
}

/// Repeated writes to one boolean field are last-write-wins: writing `a` and
/// then `b` leaves the configuration exactly as writing `b` alone would.
pub proof fn lemma_bool_setter_last_write_wins(o: OptionsV, f: BoolField, a: bool, b: bool)
    ensures
        set_bool(set_bool(o, f, a), f, b) == set_bool(o, f, b),
{
}

/// Repeated writes to one unsigned-size field are last-write-wins.
pub proof fn lemma_size_setter_last_write_wins(o: OptionsV, f: SizeField, a: usize, b: usize)
    ensures
        set_size(set_size(o, f, a), f, b) == set_size(o, f, b),
{
}

/// Repeated writes to one optional-text field are last-write-wins: storing
/// text `a` and then text `b` leaves the field holding exactly `b`.
pub proof fn lemma_text_setter_last_write_wins(o: OptionsV, f: TextField, a: Seq<u8>, b: Seq<u8>)
    ensures
        set_text(set_text(o, f, a), f, b) == set_text(o, f, b),
{
}

} // verus!
