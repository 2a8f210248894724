use cross_shell::ansi::StatusColor;
use cross_shell::shell::{ColorChoice, MessageInfo, Verbosity, default_ident, indent, render_status};

fn plain(verbosity: Verbosity) -> MessageInfo {
    MessageInfo::new(ColorChoice::Never, verbosity)
}

#[test]
fn error_line_is_exact_without_color() {
    let m = plain(Verbosity::Normal);
    let out = m.compose_error("disk full", false);
    assert_eq!(out, "[cross] error: disk full\n");
    assert!(!out.contains('\x1b'));
}

#[test]
fn error_line_is_exact_with_color() {
    let m = plain(Verbosity::Normal);
    let out = m.compose_error("disk full", true);
    assert_eq!(
        out,
        "\x1b[31m\x1b[1m[cross] error\x1b[0m\x1b[39m\x1b[1m:\x1b[0m disk full\n"
    );
}

#[test]
fn warn_line_is_exact() {
    let m = plain(Verbosity::Normal);
    assert_eq!(
        m.compose_warn("deprecated flag", false),
        "[cross] warning: deprecated flag\n"
    );
    assert_eq!(
        m.compose_warn("deprecated flag", true),
        "\x1b[33m\x1b[1m[cross] warning\x1b[0m\x1b[39m\x1b[1m:\x1b[0m deprecated flag\n"
    );
}

#[test]
fn note_line_is_exact() {
    let m = plain(Verbosity::Normal);
    assert_eq!(m.compose_note("try this", false), "[cross] note: try this\n");
    assert_eq!(
        m.compose_note("try this", true),
        "\x1b[36m\x1b[1m[cross] note\x1b[0m\x1b[39m\x1b[1m:\x1b[0m try this\n"
    );
}

#[test]
fn status_and_print_lines_are_plain() {
    let m = plain(Verbosity::Normal);
    assert_eq!(m.compose_status("building"), "building\n");
    assert_eq!(m.compose_print("result: 42"), "result: 42\n");
}

#[test]
fn status_line_without_body_leaves_the_line_open() {
    // only the label, the colon and a trailing space: no newline, so the
    // caller can continue the line itself
    let out = render_status("[cross] error", None, StatusColor::Red, false);
    assert_eq!(out, "[cross] error: ");
}

#[test]
fn warn_erases_a_pending_secondary_progress_line() {
    let mut m = plain(Verbosity::Normal);
    m.stderr_needs_erase = true;
    assert_eq!(m.compose_warn("x", false), "\x1b[K[cross] warning: x\n");
    assert_eq!(m.warn("x"), Ok(()));
    assert!(!m.stderr_needs_erase);
    assert_eq!(m.compose_warn("x", false), "[cross] warning: x\n");
}

#[test]
fn suppressed_calls_change_nothing() {
    // a debug message below Verbose must not write and must not touch the flags
    let mut m = plain(Verbosity::Normal);
    m.stdout_needs_erase = true;
    m.stderr_needs_erase = true;
    let before = m.clone();
    assert_eq!(m.debug("probe"), Ok(()));
    assert_eq!(m, before);

    let mut q = plain(Verbosity::Quiet);
    q.stdout_needs_erase = true;
    q.stderr_needs_erase = true;
    let before = q.clone();
    assert_eq!(q.warn("deprecated flag"), Ok(()));
    assert_eq!(q, before);
    assert_eq!(q.note("n"), Ok(()));
    assert_eq!(q.status("s"), Ok(()));
    assert_eq!(q.info("i"), Ok(()));
    assert_eq!(q.debug("d"), Ok(()));
    assert_eq!(q, before);
}

#[test]
fn print_erases_a_pending_progress_line() {
    let mut m = plain(Verbosity::Normal);
    m.stdout_needs_erase = true;
    assert_eq!(m.compose_print("result: 42"), "\x1b[Kresult: 42\n");
    assert_eq!(m.print("result: 42"), Ok(()));
    assert!(!m.stdout_needs_erase);
    // the next write carries no erase sequence
    assert_eq!(m.compose_print("done"), "done\n");
}

#[test]
fn erase_flags_are_per_stream() {
    let mut m = plain(Verbosity::Normal);
    m.stdout_needs_erase = true;
    m.stderr_needs_erase = true;
    // a secondary-stream write erases only the secondary stream's line
    assert_eq!(m.compose_error("e", false), "\x1b[K[cross] error: e\n");
    assert_eq!(m.error("e"), Ok(()));
    assert!(!m.stderr_needs_erase);
    assert!(m.stdout_needs_erase);
    assert_eq!(m.compose_error("e", false), "[cross] error: e\n");
}

#[test]
fn error_emits_even_when_quiet() {
    let mut q = plain(Verbosity::Quiet);
    assert_eq!(q.error("disk full"), Ok(()));
    assert_eq!(q.print("required output"), Ok(()));
}

#[test]
fn usage_block_is_exact() {
    let m = plain(Verbosity::Normal);
    let out = m.compose_usage("--target", false);
    assert_eq!(
        out,
        "[cross] error: The argument '--target' requires a value but none was supplied\n\
         Usage:\n    cross [+toolchain] [OPTIONS] [SUBCOMMAND]\n\n\
         For more information try --help\n"
    );
    assert!(out.contains("--target"));
    assert!(out.ends_with("--help\n"));
}

#[test]
fn usage_block_highlights_argument_and_help() {
    let m = plain(Verbosity::Normal);
    let out = m.compose_usage("--target", true);
    assert!(out.starts_with("\x1b[31m\x1b[1m[cross] error\x1b[0m\x1b[39m\x1b[1m:\x1b[0m"));
    assert!(out.contains("\x1b[33m--target\x1b[39m"));
    assert!(out.contains("\x1b[32m--help\x1b[39m"));
    assert!(out.ends_with("\x1b[32m--help\x1b[39m\n"));
}

#[test]
fn error_usage_writes_and_clears_the_flag() {
    let mut m = plain(Verbosity::Quiet);
    m.stderr_needs_erase = true;
    assert_eq!(m.error_usage("--target"), Ok(()));
    assert!(!m.stderr_needs_erase);
}

#[test]
fn default_ident_matches_the_tag_width() {
    assert_eq!(default_ident(), 8);
    assert_eq!(default_ident(), "[cross] ".len());
}

#[test]
fn indent_pads_every_line() {
    assert_eq!(indent("hello", 4), "    hello");
    assert_eq!(indent("a\nb", 2), "  a  b");
    assert_eq!(indent("a\r\nb\n", 1), " a b");
    assert_eq!(indent("", 3), "");
    assert_eq!(indent("\n", 2), "  ");
    assert_eq!(indent("x", 0), "x");
    assert_eq!(indent("a\n\nb", 1), " a  b");
    assert_eq!(indent("tail\r", 1), " tail\r");
}
