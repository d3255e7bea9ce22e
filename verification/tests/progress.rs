use inspectah::progress::{
    clear_block, colored, redraw, resolve_mode, Backend, Mode, ProgressMode, TerminalProgress, Verbosity,
};

#[test]
fn test_terminal_progress_finalize_noop_for_flat() {
    let tp = TerminalProgress::new(Mode::Flat, false, Verbosity::Normal);
    assert!(!tp.finalize());
}

#[test]
fn test_terminal_progress_finalize_noop_for_plain() {
    let tp = TerminalProgress::new(Mode::Plain, false, Verbosity::Normal);
    assert!(!tp.finalize());
}

#[test]
fn test_quiet_mode_cancel_noop() {
    let tp = TerminalProgress::new(Mode::Plain, false, Verbosity::Quiet);
    assert!(!tp.cancel());
}

#[test]
fn test_quiet_mode_swallows_events() {
    let tp = TerminalProgress::new(Mode::Rich, false, Verbosity::Quiet);
    assert_eq!(tp.backend_kind(), Backend::Null);
    assert!(!tp.finalize());
}

#[test]
fn test_verbose_mode_creates_renderer() {
    let tp = TerminalProgress::new(Mode::Flat, false, Verbosity::Verbose);
    assert_eq!(tp.backend_kind(), Backend::Flat);
    assert!(tp.is_verbose());
}

#[test]
fn rich_mode_finalizes_and_cancels_its_renderer() {
    let tp = TerminalProgress::new(Mode::Rich, true, Verbosity::Normal);
    assert_eq!(tp.backend_kind(), Backend::Rich);
    assert!(tp.finalize());
    assert!(tp.cancel());
    assert!(tp.color());
}

#[test]
fn test_mode_detection_cli_flag_overrides_env() {
    assert_eq!(resolve_mode(Some(ProgressMode::Rich), Some("flat"), false, false), Mode::Rich);
}

#[test]
fn test_mode_detection_env_overrides_tty() {
    assert_eq!(resolve_mode(None, Some("plain"), true, false), Mode::Plain);
}

#[test]
fn test_mode_detection_env_flat() {
    assert_eq!(resolve_mode(None, Some("flat"), true, false), Mode::Flat);
}

#[test]
fn test_mode_detection_env_unknown_defaults_rich() {
    assert_eq!(resolve_mode(None, Some("unknown_value"), false, true), Mode::Rich);
}

#[test]
fn mode_detection_falls_back_to_the_terminal() {
    assert_eq!(resolve_mode(None, None, true, false), Mode::Rich);
    assert_eq!(resolve_mode(None, None, false, false), Mode::Flat);
    assert_eq!(resolve_mode(None, None, true, true), Mode::Flat);
}

#[test]
fn colored_wraps_only_with_color() {
    assert_eq!(colored("\u{2713}", "\x1b[32m", true), "\x1b[32m\u{2713}\x1b[0m");
    assert_eq!(colored("\u{2713}", "\x1b[32m", false), "\u{2713}");
}

#[test]
fn redraw_moves_up_and_rewrites() {
    let lines = vec!["a".to_string(), "b".to_string()];
    assert_eq!(redraw(&lines, 0), "\x1b[2Ka\n\x1b[2Kb\n");
    assert_eq!(redraw(&lines, 2), "\x1b[2A\x1b[2Ka\n\x1b[2Kb\n");
}

#[test]
fn redraw_clears_leftover_lines() {
    let lines = vec!["a".to_string()];
    assert_eq!(redraw(&lines, 3), "\x1b[3A\x1b[2Ka\n\x1b[2K\n\x1b[2K\n\x1b[2A");
}

#[test]
fn clear_block_clears_and_returns() {
    assert_eq!(clear_block(0), "");
    assert_eq!(clear_block(2), "\x1b[2A\x1b[2K\n\x1b[2K\n\x1b[2A");
}
