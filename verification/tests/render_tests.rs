use starship_manager::app::render_preview;
use starship_manager::render::{prompt_environment, starship_outcome, strip_ansi, PreviewOutcome};

#[test]
fn strip_ansi_removes_escapes() {
    let input = "\x1b[31mhello\x1b[0m world";
    assert_eq!(strip_ansi(input), "hello world");
}

#[test]
fn strip_ansi_plain_passthrough() {
    assert_eq!(strip_ansi("plain text"), "plain text");
}

#[test]
fn strip_ansi_removes_bash_prompt_escapes() {
    let input = "\\[\\]hello\\[\\] world";
    assert_eq!(strip_ansi(input), "hello world");
}

#[test]
fn strip_ansi_removes_readline_brackets() {
    let input = "\x01\x1b[31m\x02hello\x01\x1b[0m\x02 world";
    assert_eq!(strip_ansi(input), "hello world");
}

#[test]
fn strip_ansi_keeps_lone_backslash_and_brackets() {
    assert_eq!(strip_ansi("a\\b [x] \\"), "a\\b [x] \\");
}

#[test]
fn strip_ansi_escape_ends_at_first_letter() {
    // The escape runs up to and including the first ASCII letter.
    assert_eq!(strip_ansi("\x1b[38;5;208mX"), "X");
    assert_eq!(strip_ansi("\x1b]0;title\x07rest"), "itle\x07rest");
}

#[test]
fn strip_ansi_unterminated_escape_drops_rest() {
    assert_eq!(strip_ansi("ok\x1b[1;2"), "ok");
}

#[test]
fn strip_ansi_empty() {
    assert_eq!(strip_ansi(""), "");
}

#[test]
fn strip_ansi_output_has_no_control_markers() {
    let out = strip_ansi("\x1b[1m\x01a\x02\x1b[0mb\x1bZc");
    assert_eq!(out, "abc");
    assert!(!out.contains('\x1b') && !out.contains('\x01') && !out.contains('\x02'));
}

#[test]
fn starship_outcome_success_gives_stdout() {
    let r = starship_outcome(true, "\x1b[1m>\x1b[0m ".as_bytes(), b"ignored");
    assert_eq!(r, PreviewOutcome::Prompt("\x1b[1m>\x1b[0m ".to_string()));
}

#[test]
fn starship_outcome_failure_quotes_stderr() {
    let r = starship_outcome(false, b"out", b"bad config");
    assert_eq!(r, PreviewOutcome::Failed("`starship prompt` failed: bad config".to_string()));
}

#[test]
fn starship_outcome_replaces_invalid_utf8() {
    let r = starship_outcome(true, &[b'a', 0xff, b'b'], b"");
    assert_eq!(r, PreviewOutcome::Prompt("a\u{FFFD}b".to_string()));
}

#[test]
fn render_preview_strips_or_reports() {
    assert_eq!(render_preview(PreviewOutcome::Prompt("\x1b[32m❯\x1b[0m ".to_string())), "❯ ");
    assert_eq!(
        render_preview(PreviewOutcome::Failed("Failed to run `starship` — is it installed?".to_string())),
        "[preview error: Failed to run `starship` — is it installed?]"
    );
    let missing = render_preview(PreviewOutcome::StarshipMissing);
    assert!(missing.contains("Press 'i' to install"));
}

#[test]
fn prompt_environment_renders_for_bash() {
    assert_eq!(
        prompt_environment(),
        vec![
            ("STARSHIP_SHELL".to_string(), "bash".to_string()),
            ("TERM".to_string(), "xterm-256color".to_string()),
        ]
    );
}
