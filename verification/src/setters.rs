//! The per-field option setter surface.
//!
//! One exported function per (category, field) pair, named
//! `set_<category>_option_<field>`. Boolean and unsigned-size setters are
//! total; optional-text setters validate the supplied buffer first and leave
//! the configuration untouched when the bytes are not valid UTF-8.

use vstd::prelude::*;

use crate::options::BoolField;
use crate::options::Options;
use crate::options::SizeField;
use crate::options::TextField;
use crate::options::set_bool;
use crate::options::set_size;
use crate::options::set_text;
use crate::utf8::copy_bytes;
use crate::utf8::is_utf8;
use crate::utf8::validate_utf8;

verus! {

/// Enables or disables the strikethrough extension.
pub fn set_extension_option_strikethrough(opts: &mut Options, value: bool)
    ensures
        final(opts)@ == set_bool(old(opts)@, BoolField::ExtensionStrikethrough, value),
{
    opts.extension.strikethrough = value;
}

/// Enables or disables the table extension.
pub fn set_extension_option_table(opts: &mut Options, value: bool)
    ensures
        final(opts)@ == set_bool(old(opts)@, BoolField::ExtensionTable, value),
{
    opts.extension.table = value;
}

/// Enables or disables the autolink extension.
pub fn set_extension_option_autolink(opts: &mut Options, value: bool)
    ensures
        final(opts)@ == set_bool(old(opts)@, BoolField::ExtensionAutolink, value),
{
    opts.extension.autolink = value;
}

/// Enables or disables the task-list extension.
pub fn set_extension_option_tasklist(opts: &mut Options, value: bool)
    ensures
        final(opts)@ == set_bool(old(opts)@, BoolField::ExtensionTasklist, value),
{
    opts.extension.tasklist = value;
}

/// Enables or disables smart punctuation at parse time.
pub fn set_parse_option_smart(opts: &mut Options, value: bool)
    ensures
        final(opts)@ == set_bool(old(opts)@, BoolField::ParseSmart, value),
{
    opts.parse.smart = value;
}

/// Enables or disables hard line breaks in the rendered output.
pub fn set_render_option_hardbreaks(opts: &mut Options, value: bool)
    ensures
        final(opts)@ == set_bool(old(opts)@, BoolField::RenderHardbreaks, value),
{
    opts.render.hardbreaks = value;
}

/// Enables or disables GitHub-style `pre lang` code blocks.
pub fn set_render_option_github_pre_lang(opts: &mut Options, value: bool)
    ensures
        final(opts)@ == set_bool(old(opts)@, BoolField::RenderGithubPreLang, value),
{
    opts.render.github_pre_lang = value;
}

/// Sets the wrap column used when the engine emits CommonMark.
pub fn set_render_option_width(opts: &mut Options, value: usize)
    ensures
        final(opts)@ == set_size(old(opts)@, SizeField::RenderWidth, value),
{
    opts.render.width = value;
}

/// Sets the heading anchor prefix from a caller-supplied buffer.
///
/// The buffer is validated first: valid UTF-8 is stored as the new field
/// value; anything else leaves the whole configuration exactly as it was.
pub fn set_extension_option_header_id_prefix(opts: &mut Options, v: &[u8])
    ensures
        is_utf8(v@) ==> final(opts)@ == set_text(
            old(opts)@,
            TextField::ExtensionHeaderIdPrefix,
            v@,
        ),
        !is_utf8(v@) ==> *final(opts) == *old(opts),
{
    if validate_utf8(v) {
        opts.extension.header_id_prefix = Some(copy_bytes(v));
    }
}

/// Sets the default info string for fenced code blocks from a
/// caller-supplied buffer.
///
/// The buffer is validated first: valid UTF-8 is stored as the new field
/// value; anything else leaves the whole configuration exactly as it was.
pub fn set_parse_option_default_info_string(opts: &mut Options, v: &[u8])
    ensures
        is_utf8(v@) ==> final(opts)@ == set_text(old(opts)@, TextField::ParseDefaultInfoString, v@),
        !is_utf8(v@) ==> *final(opts) == *old(opts),
{
    if validate_utf8(v) {
        opts.parse.default_info_string = Some(copy_bytes(v));
    }
}

} // verus!
