//! Tests of the AI response handling: fence stripping and error rendering.

use neuronano::ai::{clean_markdown, format_ai_error};

#[test]
fn clean_strips_wrapping_fences() {
    assert_eq!(clean_markdown("```\nHELLO\n```"), "HELLO");
}

#[test]
fn clean_strips_language_tagged_fence() {
    assert_eq!(clean_markdown("```rust\nfn main() {}\n```"), "fn main() {}");
}

#[test]
fn clean_keeps_unfenced_text() {
    assert_eq!(clean_markdown("hello"), "hello");
}

#[test]
fn clean_of_empty_text_is_empty() {
    assert_eq!(clean_markdown(""), "");
}

#[test]
fn clean_strips_indented_fences() {
    assert_eq!(clean_markdown("  ```  \ncode\n  ```"), "code");
}

#[test]
fn clean_strips_fences_behind_unicode_whitespace() {
    assert_eq!(clean_markdown("\u{000B}```\nHELLO\n```"), "HELLO");
    assert_eq!(clean_markdown("\u{00A0}```rust\ncode\n\u{2003}```\u{000C}"), "code");
}

#[test]
fn clean_keeps_inner_lines_intact() {
    assert_eq!(clean_markdown("```\na\n\nb\n```"), "a\n\nb");
}

#[test]
fn clean_strips_leading_fence_alone() {
    assert_eq!(clean_markdown("```python\nx = 1"), "x = 1");
}

#[test]
fn clean_strips_trailing_fence_alone() {
    assert_eq!(clean_markdown("x = 1\n```"), "x = 1");
}

#[test]
fn error_text_is_prefixed() {
    assert_eq!(format_ai_error("rate limited"), "Error: rate limited");
}
