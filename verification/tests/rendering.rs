use achat::renderer::MarkdownRenderer;
use achat::renderer::RenderError;

const DOCUMENT: &str = "# Title\nplain text\n```\nlet x = 1;\n```\nafter the code\ntrailing";

const DOCUMENT_RENDERED: &str = "\u{1b}[1m# Title\u{1b}[0m\nplain text\n\u{1b}[36mlet x = 1;\u{1b}[0m\nafter the code\n";

fn feed_all(renderer: &mut MarkdownRenderer, chunks: &[&str]) -> String {
    let mut emitted = String::new();
    for chunk in chunks {
        let (out, err) = renderer.feed(chunk);
        assert!(err.is_none());
        emitted.push_str(&out);
    }
    emitted
}

#[test]
fn whole_document_renders_expected_styles() {
    let mut renderer = MarkdownRenderer::new(Some(80));
    let emitted = feed_all(&mut renderer, &[DOCUMENT]);
    assert_eq!(emitted, DOCUMENT_RENDERED);
    let (flushed, err) = renderer.finish();
    assert!(err.is_none());
    assert_eq!(flushed, "trailing\n");
}

#[test]
fn chunked_feeding_matches_single_feed() {
    // one call
    let mut whole = MarkdownRenderer::new(None);
    let mut expected = feed_all(&mut whole, &[DOCUMENT]);
    let (flushed, _) = whole.finish();
    expected.push_str(&flushed);

    // character by character
    let mut chars = MarkdownRenderer::new(None);
    let mut emitted = String::new();
    for c in DOCUMENT.chars() {
        let (out, err) = chars.feed(&c.to_string());
        assert!(err.is_none());
        emitted.push_str(&out);
    }
    let (flushed, _) = chars.finish();
    emitted.push_str(&flushed);
    assert_eq!(emitted, expected);

    // uneven chunks, some empty
    let mut uneven = MarkdownRenderer::new(None);
    let emitted = feed_all(
        &mut uneven,
        &["# Tit", "", "le\npla", "in text\n``", "`\nlet x = 1;\n```\nafter the code\ntrailing"],
    );
    let mut emitted = emitted;
    let (flushed, _) = uneven.finish();
    emitted.push_str(&flushed);
    assert_eq!(emitted, expected);
}

#[test]
fn partial_line_waits_for_more_input() {
    let mut renderer = MarkdownRenderer::new(None);
    let (out, err) = renderer.feed("# Ti");
    assert_eq!(out, "");
    assert!(err.is_none());
    let (out, err) = renderer.feed("tle\n");
    assert_eq!(out, "\u{1b}[1m# Title\u{1b}[0m\n");
    assert!(err.is_none());
}

#[test]
fn code_fence_style_survives_chunk_boundaries() {
    let mut renderer = MarkdownRenderer::new(None);
    let (out, _) = renderer.feed("```\ninside\n");
    assert_eq!(out, "\u{1b}[36minside\u{1b}[0m\n");
    // still inside the fence on the next call
    let (out, _) = renderer.feed("more\n```\nout\n");
    assert_eq!(out, "\u{1b}[36mmore\u{1b}[0m\nout\n");
}

#[test]
fn fence_with_info_string_toggles_too() {
    let mut renderer = MarkdownRenderer::new(None);
    let (out, err) = renderer.feed("```rust\ncode\n```\n");
    assert!(err.is_none());
    assert_eq!(out, "\u{1b}[36mcode\u{1b}[0m\n");
}

#[test]
fn seven_marks_are_not_a_heading() {
    let mut renderer = MarkdownRenderer::new(None);
    let (out, err) = renderer.feed("####### deep\n## ok\n");
    assert!(err.is_none());
    assert_eq!(out, "####### deep\n\u{1b}[1m## ok\u{1b}[0m\n");
}

#[test]
fn tabs_are_fine_but_control_characters_are_fatal() {
    let mut renderer = MarkdownRenderer::new(None);
    let (out, err) = renderer.feed("a\tb\n");
    assert!(err.is_none());
    assert_eq!(out, "a\tb\n");

    let (out, err) = renderer.feed("good line\nbad\u{1}line\n");
    // what was already styled stays emitted; the bad line is fatal
    assert_eq!(out, "good line\n");
    assert_eq!(err, Some(RenderError::ControlCharacter));

    // the turn stays failed: nothing more is rendered
    let (out, err) = renderer.feed("later\n");
    assert_eq!(out, "");
    assert_eq!(err, Some(RenderError::ControlCharacter));
}

#[test]
fn finish_flushes_blank_line_when_nothing_pending() {
    let mut renderer = MarkdownRenderer::new(None);
    let (out, err) = renderer.feed("done\n");
    assert_eq!(out, "done\n");
    assert!(err.is_none());
    let (flushed, err) = renderer.finish();
    assert!(err.is_none());
    // the appended newline completes an empty line
    assert_eq!(flushed, "\n");
}
