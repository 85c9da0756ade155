//! The invocation entry point: validates the caller's input buffer, drives
//! the rendering engine, and wraps its output for the caller.
//!
//! The engine itself is an outside capability; what it produces for a given
//! input and configuration is given a name, and everything around the one
//! call to it is verified.

use vstd::prelude::*;

use comrak::Options as EngineOptions;
use comrak::markdown_to_html;

use crate::options::Options;
use crate::options::OptionsV;
use crate::strbox::Str;
use crate::utf8::is_utf8;
use crate::utf8::validate_utf8;

verus! {

/// The HTML the engine renders from `input` under the configuration `opts`.
/// It depends on those two arguments alone.
pub uninterp spec fn rendered(input: Seq<u8>, opts: OptionsV) -> Seq<u8>;

/// Relies on comrak::markdown_to_html: the HTML it returns depends only on
/// the input text and the option values, which this body carries over from
/// `c` field by field before the one call into the engine.
#[verifier::external_body]
fn engine_html(input: &[u8], c: &Options) -> (r: Vec<u8>)
    requires
        is_utf8(input@),
    ensures
        r@ == rendered(input@, c@),
{
    let mut o = EngineOptions::default();
    o.extension.strikethrough = c.extension.strikethrough;
    o.extension.table = c.extension.table;
    o.extension.autolink = c.extension.autolink;
    o.extension.tasklist = c.extension.tasklist;
    o.extension.header_id_prefix = c.extension.header_id_prefix.as_ref().map(|v| String::from_utf8_lossy(v).into_owned());
    o.parse.smart = c.parse.smart;
    o.parse.default_info_string = c.parse.default_info_string.as_ref().map(|v| String::from_utf8_lossy(v).into_owned());
    o.render.hardbreaks = c.render.hardbreaks;
    o.render.github_pre_lang = c.render.github_pre_lang;
    o.render.width = c.render.width;
    markdown_to_html(std::str::from_utf8(input).unwrap_or(""), &o).into_bytes()
}

/// Renders one input buffer under one configuration.
///
/// The buffer is validated first: the engine is reached if and only if the
/// bytes are valid UTF-8, and the result then carries exactly the engine's
/// output. Invalid input is reported by the absence of a result, which is
/// distinguishable from an empty successful one.
pub fn commonmark_to_html(input: &[u8], opts: &Options) -> (r: Option<Str>)
    ensures
        r is Some <==> is_utf8(input@),
        r matches Some(s) ==> s.is_live() && s@ == rendered(input@, opts@),
{
    if validate_utf8(input) {
        Some(Str::from_bytes(engine_html(input, opts)))
    } else {
        None
    }
}

} // verus!
