use inspectah::pull_progress::{
    count_completed_blobs, non_tty_step, pull_summary_line, strip_ansi, truncate_line,
    tty_viewport_step, viewport_cleanup, viewport_content_width, MAX_VIEWPORT_WIDTH,
};

#[test]
fn strip_ansi_color() {
    assert_eq!(strip_ansi("\x1b[32mgreen\x1b[0m"), "green");
}

#[test]
fn strip_ansi_cursor_movement() {
    assert_eq!(strip_ansi("\x1b[3Atext"), "text");
}

#[test]
fn strip_ansi_no_escape() {
    assert_eq!(strip_ansi("plain text"), "plain text");
}

#[test]
fn strip_ansi_osc_and_other_escapes() {
    assert_eq!(strip_ansi("a\x1b]0;title\x07b"), "ab");
    assert_eq!(strip_ansi("a\x1b(b"), "ab");
    assert_eq!(strip_ansi("trailing\x1b"), "trailing");
    assert_eq!(strip_ansi("\x1b[12;"), "");
}

#[test]
fn strip_ansi_is_idempotent() {
    let once = strip_ansi("\x1b[1m\x1b[31mred\x1b[0m bold");
    assert_eq!(strip_ansi(&once), once);
}

#[test]
fn count_blobs_normal() {
    let lines: Vec<String> = vec![
        "Copying blob sha256:aaa111 done".into(),
        "Copying blob sha256:bbb222 done".into(),
        "Copying blob sha256:ccc333 skipped".into(),
    ];
    assert_eq!(count_completed_blobs(&lines), Some(3));
}

#[test]
fn count_blobs_deduplicates() {
    let lines: Vec<String> = vec![
        "Copying blob sha256:aaa111 42 MiB / 89 MiB".into(),
        "Copying blob sha256:aaa111 done".into(),
        "Copying blob sha256:aaa111 done".into(),
    ];
    assert_eq!(count_completed_blobs(&lines), Some(1));
}

#[test]
fn count_blobs_with_progress_lines() {
    let lines: Vec<String> = vec![
        "Copying blob sha256:aaa111 42 MiB / 89 MiB".into(),
        "Copying blob sha256:aaa111 done".into(),
    ];
    assert_eq!(count_completed_blobs(&lines), Some(1));
}

#[test]
fn count_blobs_empty() {
    let lines: Vec<String> = vec!["Writing manifest".into()];
    assert_eq!(count_completed_blobs(&lines), None);
}

#[test]
fn count_blobs_with_ansi() {
    let lines: Vec<String> = vec!["\x1b[32mCopying blob sha256:aaa111 done\x1b[0m".into()];
    assert_eq!(count_completed_blobs(&lines), Some(1));
}

#[test]
fn count_blobs_line_without_digest_is_ignored() {
    let lines: Vec<String> = vec!["Copying blob done".into()];
    assert_eq!(count_completed_blobs(&lines), None);
}

#[test]
fn pull_summary_with_blobs() {
    let line = pull_summary_line("quay.io/test:latest", "sha256:abc123def456789", Some(7));
    assert!(line.contains("7 blob transfers"));
    assert!(line.contains("sha256:abc123def45"));
    assert!(!line.contains("layers"));
}

#[test]
fn pull_summary_without_blobs() {
    let line = pull_summary_line("quay.io/test:latest", "sha256:abc123", None);
    assert!(!line.contains("blob transfers"));
    assert!(line.contains("sha256:abc123"));
}

#[test]
fn pull_summary_exact_text() {
    assert_eq!(
        pull_summary_line("img", "sha256:0123456789abcdef", Some(12)),
        "Pulled img (12 blob transfers, sha256:0123456789ab)"
    );
    assert_eq!(pull_summary_line("img", "d", None), "Pulled img (d)");
}

#[test]
fn truncate_line_short() {
    assert_eq!(truncate_line("hello", 10), "hello");
}

#[test]
fn truncate_line_exact() {
    assert_eq!(truncate_line("hello", 5), "hello");
}

#[test]
fn truncate_line_long() {
    let result = truncate_line("hello world", 6);
    assert!(result.ends_with('\u{2026}'));
    assert_eq!(result.chars().count(), 6);
}

#[test]
fn truncate_line_counts_characters() {
    assert_eq!(truncate_line("\u{e9}\u{e9}\u{e9}", 3), "\u{e9}\u{e9}\u{e9}");
    assert_eq!(truncate_line("\u{e9}\u{e9}\u{e9}\u{e9}", 3), "\u{e9}\u{e9}\u{2026}");
}

#[test]
fn truncate_line_tiny_limit() {
    assert_eq!(truncate_line("hello", 1), "\u{2026}");
    assert_eq!(truncate_line("hello", 0), "\u{2026}");
}

#[test]
fn viewport_content_width_normal() {
    let w = viewport_content_width(80);
    assert!(w <= MAX_VIEWPORT_WIDTH - 6);
    assert!(w > 0);
}

#[test]
fn viewport_content_width_narrow() {
    let w = viewport_content_width(45);
    assert!(w > 0);
}

#[test]
fn viewport_content_width_values() {
    assert_eq!(viewport_content_width(80), 66);
    assert_eq!(viewport_content_width(45), 39);
    assert_eq!(viewport_content_width(3), 0);
}

#[test]
fn non_tty_callback_collects() {
    let mut collected = Vec::new();
    let a = non_tty_step(&mut collected, "Copying blob sha256:aaa done");
    let b = non_tty_step(&mut collected, "Copying blob sha256:bbb skipped");
    assert_eq!(collected.len(), 2);
    assert!(collected[0].contains("aaa"));
    assert_eq!(a.as_deref(), Some("  pull: Copying blob sha256:aaa done"));
    assert!(b.is_some());
}

#[test]
fn non_tty_blank_line_is_collected_but_not_printed() {
    let mut collected = Vec::new();
    assert_eq!(non_tty_step(&mut collected, "  \x1b[0m "), None);
    assert_eq!(collected.len(), 1);
}

#[test]
fn tty_viewport_draws_box() {
    let mut collected = Vec::new();
    let mut ring = vec![String::new(), String::new(), String::new()];
    let mut pos = 0usize;
    let first = tty_viewport_step(&mut collected, &mut ring, &mut pos, 4, "abcdef").unwrap();
    assert_eq!(pos, 1);
    assert_eq!(ring[0], "abc\u{2026}");
    assert_eq!(
        first,
        "  \u{250c}\u{2500}\u{2500}\u{2500}\u{2500}\u{2500}\u{2500}\u{2510}\n  \u{2502} abc\u{2026} \u{2502}\n  \u{2502}      \u{2502}\n  \u{2502}      \u{2502}\n  \u{2514}\u{2500}\u{2500}\u{2500}\u{2500}\u{2500}\u{2500}\u{2518}\n"
    );
    let second = tty_viewport_step(&mut collected, &mut ring, &mut pos, 4, "xy").unwrap();
    assert!(second.starts_with("\x1b[5A"));
    assert_eq!(collected.len(), 2);
    assert_eq!(tty_viewport_step(&mut collected, &mut ring, &mut pos, 4, "   "), None);
    assert_eq!(pos, 2);
}

#[test]
fn viewport_cleanup_clears_five_lines() {
    assert_eq!(
        viewport_cleanup(),
        "\x1b[5A\x1b[2K\n\x1b[2K\n\x1b[2K\n\x1b[2K\n\x1b[2K\n\x1b[5A"
    );
}

#[test]
fn strip_ansi_leaves_no_escape_and_never_grows() {
    let line = "\x1b]0;title\x07Copying \x1b[32mblob\x1b[0m sha256:abc \x1bX done";
    let out = strip_ansi(line);
    assert!(!out.contains('\x1b'));
    assert!(out.chars().count() <= line.chars().count());
    assert_eq!(out, "Copying blob sha256:abc  done");
}

#[test]
fn blob_count_ignores_order_and_repeats() {
    let a: Vec<String> = vec![
        "Copying blob sha256:aaa done".into(),
        "Copying blob sha256:bbb skipped".into(),
        "Writing manifest".into(),
    ];
    let b: Vec<String> = vec![
        "Writing manifest".into(),
        "Copying blob sha256:bbb skipped".into(),
        "Copying blob sha256:aaa done".into(),
        "Copying blob sha256:aaa done".into(),
    ];
    assert_eq!(count_completed_blobs(&a), Some(2));
    assert_eq!(count_completed_blobs(&a), count_completed_blobs(&b));
}
