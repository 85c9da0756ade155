use comrak_capi::engine::commonmark_to_html;
use comrak_capi::options::Options;
use comrak_capi::setters::set_extension_option_header_id_prefix;
use comrak_capi::setters::set_extension_option_strikethrough;
use comrak_capi::setters::set_render_option_hardbreaks;

fn html_string(out: comrak_capi::strbox::Str) -> String {
    String::from_utf8(out.as_bytes().to_vec()).unwrap()
}

#[test]
fn hardbreaks_option_inserts_a_hard_break_marker() {
    let mut opts = Options::new();
    set_render_option_hardbreaks(&mut opts, true);
    let out = commonmark_to_html(b"line one\nline two", &opts).unwrap();
    let html = html_string(out);
    assert!(html.contains("<br />"));
}

#[test]
fn without_hardbreaks_no_marker_appears() {
    let opts = Options::new();
    let out = commonmark_to_html(b"line one\nline two", &opts).unwrap();
    let html = html_string(out);
    assert!(!html.contains("<br"));
    assert!(html.contains("line one"));
    assert!(html.contains("line two"));
}

#[test]
fn strikethrough_option_reaches_the_engine() {
    let mut opts = Options::new();
    set_extension_option_strikethrough(&mut opts, true);
    let out = commonmark_to_html(b"Hello ~world~ there.\n", &opts).unwrap();
    assert!(html_string(out).contains("<del>world</del>"));
    let plain = commonmark_to_html(b"Hello ~world~ there.\n", &Options::new()).unwrap();
    assert!(!html_string(plain).contains("<del>"));
}

#[test]
fn header_id_prefix_text_reaches_the_engine() {
    let mut opts = Options::new();
    set_extension_option_header_id_prefix(&mut opts, b"user-content-");
    let out = commonmark_to_html(b"# README\n", &opts).unwrap();
    assert!(html_string(out).contains("id=\"user-content-readme\""));
}

#[test]
fn invalid_input_yields_no_result() {
    let opts = Options::new();
    assert!(commonmark_to_html(&[0xFF, 0x6A], &opts).is_none());
}

#[test]
fn empty_input_yields_an_empty_successful_result() {
    let opts = Options::new();
    let out = commonmark_to_html(b"", &opts).unwrap();
    assert_eq!(out.as_bytes(), b"");
}
