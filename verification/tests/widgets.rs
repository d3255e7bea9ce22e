use inspectah::sections::{build_nav_rows, NavGroupSet};
use inspectah::tui_types::{NavGroup, SectionEntry, SectionId};
use inspectah::widget::containerfile::{is_keyword_line, ContainerfileWidget};
use inspectah::widget::detail_view::{DetailContentType, DetailData, DetailViewWidget};
use inspectah::widget::help_screen::HelpScreenWidget;
use inspectah::widget::info_bar::{InfoBarData, InfoBarWidget};
use inspectah::widget::search::{
    matches_query, search_all_sections, section_counts, SearchCorpus, SearchResult, SearchWidget,
};
use inspectah::widget::section_nav::SectionNavWidget;
use inspectah::widget::status_bar::{FlashMessage, StatusBarWidget};
use inspectah::widget::{ColorTier, DrawOp, Rect, Token};

/// Paints drawing operations onto a grid of `width` x `height` cells and
/// returns the rows joined by newlines.
fn paint(ops: &[DrawOp], width: u16, height: u16) -> String {
    let mut grid = vec![vec![' '; width as usize]; height as usize];
    for op in ops {
        match op {
            DrawOp::Text { x, y, text, .. } => {
                if *y >= height {
                    continue;
                }
                let mut cx = *x as usize;
                for c in text.chars() {
                    if cx >= width as usize {
                        break;
                    }
                    grid[*y as usize][cx] = c;
                    cx += 1;
                }
            }
            DrawOp::Clear { area } => {
                for yy in area.y..area.y.saturating_add(area.height).min(height) {
                    for xx in area.x..area.x.saturating_add(area.width).min(width) {
                        grid[yy as usize][xx as usize] = ' ';
                    }
                }
            }
        }
    }
    grid.iter().map(|r| r.iter().collect::<String>()).collect::<Vec<_>>().join("\n")
}

#[test]
fn keyword_detection() {
    assert!(is_keyword_line("FROM scratch"));
    assert!(is_keyword_line("RUN dnf install -y httpd"));
    assert!(is_keyword_line("COPY . /app"));
    assert!(is_keyword_line("ADD archive.tar.gz /opt"));
    assert!(is_keyword_line("ENV PORT=8080"));
    assert!(is_keyword_line("  WORKDIR /app"));
    assert!(!is_keyword_line("echo hello"));
    assert!(!is_keyword_line("# comment"));
}

#[test]
fn renders_containerfile_with_line_numbers() {
    let content = "FROM registry.redhat.io/rhel9:latest\nRUN dnf install -y httpd\nCOPY config /etc/httpd/\n# Start the server\nENV PORT=8080";
    let widget = ContainerfileWidget::new(content, ColorTier::Mono);
    let ops = widget.layout(Rect::new(0, 0, 50, 10));
    let text = paint(&ops, 50, 10);
    assert!(text.contains("Containerfile Preview"));
    assert!(text.contains("FROM"));
    assert!(text.contains("RUN"));
    assert!(text.contains("  1 FROM"));
    assert!(text.contains("  5 ENV PORT=8080"));
}

#[test]
fn containerfile_skips_render_when_too_small() {
    let widget = ContainerfileWidget::new("FROM scratch", ColorTier::Mono);
    let ops = widget.layout(Rect::new(0, 0, 10, 2));
    let text = paint(&ops, 10, 2);
    assert!(!text.contains("Containerfile"));
}

#[test]
fn truncates_long_lines() {
    let long_line = format!("RUN {}", "x".repeat(200));
    let widget = ContainerfileWidget::new(&long_line, ColorTier::Mono);
    let ops = widget.layout(Rect::new(0, 0, 30, 5));
    let text = paint(&ops, 30, 5);
    assert!(text.contains("RUN"));
    match &ops[2..] {
        [DrawOp::Text { .. }, DrawOp::Text { text, style, .. }] => {
            assert_eq!(text.chars().count(), 26);
            assert!(text.ends_with('\u{2026}'));
            assert_eq!(style.token, Token::DiffAdded);
        }
        other => panic!("unexpected ops {other:?}"),
    }
}

#[test]
fn containerfile_comment_lines_are_muted() {
    let widget = ContainerfileWidget::new("  # note", ColorTier::Mono);
    let ops = widget.layout(Rect::new(0, 0, 30, 5));
    match ops.last() {
        Some(DrawOp::Text { style, .. }) => assert_eq!(style.token, Token::TextMuted),
        other => panic!("unexpected op {other:?}"),
    }
}

fn diff_content() -> String {
    "--- a/httpd.conf\n+++ b/httpd.conf\n@@ -1,3 +1,3 @@\n-Listen 80\n+Listen 8080\n ServerName local".to_string()
}

#[test]
fn renders_diff_detail() {
    let data = DetailData {
        title: "/etc/httpd/conf/httpd.conf".into(),
        content: diff_content(),
        content_type: DetailContentType::Diff,
        included: Some(true),
        position: "3 of 12".into(),
    };
    let widget = DetailViewWidget::new(&data, 0, ColorTier::Mono);
    let ops = widget.layout(Rect::new(0, 0, 50, 12));
    let text = paint(&ops, 50, 12);
    assert!(text.contains("\u{25cf}"));
    assert!(text.contains("3 of 12"));
    assert!(text.contains("+Listen 8080"));
    let styles: Vec<Token> = ops
        .iter()
        .filter_map(|o| match o {
            DrawOp::Text { text, style, .. } if text.starts_with("+Listen") || text.starts_with("-Listen") || text.starts_with("+++") => Some(style.token),
            _ => None,
        })
        .collect();
    assert_eq!(styles, vec![Token::TextPrimary, Token::DiffRemoved, Token::DiffAdded]);
}

#[test]
fn renders_plain_text_detail() {
    let data = DetailData {
        title: "httpd.x86_64".into(),
        content: "Version: 2.4.62\nRepo: rhel-9-appstream\nArch: x86_64".into(),
        content_type: DetailContentType::PlainText,
        included: Some(false),
        position: "1 of 5".into(),
    };
    let widget = DetailViewWidget::new(&data, 0, ColorTier::Mono);
    let ops = widget.layout(Rect::new(0, 0, 50, 8));
    let text = paint(&ops, 50, 8);
    assert!(text.contains("\u{25cb}"));
    assert!(text.contains("httpd.x86_64"));
    assert!(text.contains("Repo: rhel-9-appstream"));
    assert!(text.contains("n:next  p:prev  Esc:close  j/k:scroll"));
}

#[test]
fn scrolls_content() {
    let content = (0..20).map(|i| format!("line {i}")).collect::<Vec<_>>().join("\n");
    let data = DetailData {
        title: "scrolltest".into(),
        content,
        content_type: DetailContentType::PlainText,
        included: None,
        position: "1 of 1".into(),
    };
    let widget = DetailViewWidget::new(&data, 5, ColorTier::Mono);
    let ops = widget.layout(Rect::new(0, 0, 30, 8));
    let text = paint(&ops, 30, 8);
    assert!(text.contains("line 5"));
    assert!(!text.contains("line 0"));
}

#[test]
fn detail_view_skips_render_when_too_small() {
    let data = DetailData {
        title: "tiny".into(),
        content: "content".into(),
        content_type: DetailContentType::PlainText,
        included: None,
        position: "1 of 1".into(),
    };
    let widget = DetailViewWidget::new(&data, 0, ColorTier::Mono);
    let ops = widget.layout(Rect::new(0, 0, 10, 2));
    assert!(paint(&ops, 10, 2).trim().is_empty());
}

#[test]
fn renders_package_info() {
    let data = InfoBarData {
        name: "httpd.x86_64".into(),
        fields: vec![
            ("Version".into(), "2.4.62".into()),
            ("Repo".into(), "rhel-9-appstream".into()),
            ("Reason".into(), "User-added package".into()),
        ],
    };
    let widget = InfoBarWidget::new(&data, ColorTier::Mono);
    let ops = widget.layout(Rect::new(0, 0, 50, 5));
    let text = paint(&ops, 50, 5);
    let rows: Vec<&str> = text.split('\n').collect();
    assert_eq!(rows[0], "\u{2500}".repeat(50));
    assert_eq!(rows[1].trim_end(), " httpd.x86_64");
    assert_eq!(rows[2].trim_end(), "  Version: 2.4.62");
    assert_eq!(rows[3].trim_end(), "  Repo: rhel-9-appstream");
    assert_eq!(rows[4].trim_end(), "  Reason: User-added package");
}

#[test]
fn renders_config_info() {
    let data = InfoBarData {
        name: "/etc/httpd/conf/httpd.conf".into(),
        fields: vec![("Kind".into(), "Modified".into()), ("Category".into(), "Application".into())],
    };
    let widget = InfoBarWidget::new(&data, ColorTier::Mono);
    let ops = widget.layout(Rect::new(0, 0, 50, 4));
    let text = paint(&ops, 50, 4);
    assert!(text.contains("/etc/httpd/conf/httpd.conf"));
    assert!(text.contains("  Kind: Modified"));
    assert!(text.contains("  Category: Application"));
}

#[test]
fn info_bar_skips_render_when_too_small() {
    let data = InfoBarData { name: "tiny".into(), fields: vec![] };
    let widget = InfoBarWidget::new(&data, ColorTier::Mono);
    let ops = widget.layout(Rect::new(0, 0, 10, 1));
    assert!(paint(&ops, 10, 1).trim().is_empty());
}

#[test]
fn truncates_fields_to_available_rows() {
    let data = InfoBarData {
        name: "test-item".into(),
        fields: vec![
            ("A".into(), "1".into()),
            ("B".into(), "2".into()),
            ("C".into(), "3".into()),
            ("D".into(), "4".into()),
        ],
    };
    let widget = InfoBarWidget::new(&data, ColorTier::Mono);
    let ops = widget.layout(Rect::new(0, 0, 40, 4));
    let text = paint(&ops, 40, 4);
    assert!(text.contains("A:"));
    assert!(text.contains("B:"));
    assert!(!text.contains("C:"));
}

#[test]
fn info_bar_cuts_long_names() {
    let data = InfoBarData { name: "x".repeat(40), fields: vec![] };
    let widget = InfoBarWidget::new(&data, ColorTier::Mono);
    let ops = widget.layout(Rect::new(0, 0, 20, 2));
    match &ops[1] {
        DrawOp::Text { text, x, .. } => {
            assert_eq!(*x, 1);
            assert_eq!(text.len(), 19);
        }
        other => panic!("unexpected op {other:?}"),
    }
}

#[test]
fn renders_title_and_entries() {
    let widget = HelpScreenWidget::new(ColorTier::Mono);
    let ops = widget.layout(Rect::new(0, 0, 60, 30));
    let output = paint(&ops, 60, 30);
    assert!(output.contains("Keybindings"));
    assert!(output.contains("Move cursor"));
    assert!(output.contains("Quit"));
    assert!(output.contains("Commands"));
    assert!(output.contains("Export tarball"));
}

#[test]
fn renders_footer_hint() {
    let widget = HelpScreenWidget::new(ColorTier::Mono);
    let ops = widget.layout(Rect::new(0, 0, 60, 35));
    let output = paint(&ops, 60, 35);
    assert!(output.contains("Press ? or Esc to close"));
}

#[test]
fn clips_at_area_boundary() {
    let widget = HelpScreenWidget::new(ColorTier::Ansi16);
    let ops = widget.layout(Rect::new(0, 0, 40, 5));
    assert!(matches!(ops[0], DrawOp::Clear { .. }));
    let output = paint(&ops, 40, 5);
    assert!(output.contains("Move cursor"));
    assert!(!output.contains("Press ? or Esc to close"));
}

fn nav_entries() -> Vec<SectionEntry> {
    vec![
        SectionEntry { id: SectionId::Packages, count: 142, included: 130, excluded: 12 },
        SectionEntry { id: SectionId::Configs, count: 47, included: 40, excluded: 7 },
        SectionEntry { id: SectionId::Services, count: 23, included: 20, excluded: 3 },
    ]
}

#[test]
fn renders_nav_tree_with_groups() {
    let rows = build_nav_rows(&nav_entries(), &NavGroupSet::new());
    let widget = SectionNavWidget::new(&rows, SectionId::Packages, true, ColorTier::Mono, 0);
    let ops = widget.layout(Rect::new(0, 0, 22, 10));
    let text = paint(&ops, 22, 10);
    assert!(text.contains("Packages"), "should contain Packages group");
    assert!(text.contains("\u{2500} Sections \u{2500}"));
    assert!(text.contains(" 1 Packages"));
}

#[test]
fn collapsed_group_shows_summary() {
    let entries = vec![
        SectionEntry { id: SectionId::Configs, count: 47, included: 40, excluded: 7 },
        SectionEntry { id: SectionId::Sysctls, count: 8, included: 5, excluded: 3 },
        SectionEntry { id: SectionId::Tuned, count: 3, included: 2, excluded: 1 },
        SectionEntry { id: SectionId::KernelBoot, count: 10, included: 0, excluded: 0 },
        SectionEntry { id: SectionId::SELinux, count: 2, included: 0, excluded: 0 },
    ];
    let mut collapsed = NavGroupSet::new();
    collapsed.insert(NavGroup::SystemConfig);
    let rows = build_nav_rows(&entries, &collapsed);
    let widget = SectionNavWidget::new(&rows, SectionId::Packages, true, ColorTier::Mono, 0);
    let ops = widget.layout(Rect::new(0, 0, 30, 5));
    let text = paint(&ops, 30, 5);
    assert!(text.contains("adv"), "collapsed group should show advisory count");
}

#[test]
fn empty_area_renders_nothing() {
    let rows = build_nav_rows(&nav_entries(), &NavGroupSet::new());
    let widget = SectionNavWidget::new(&rows, SectionId::Packages, true, ColorTier::Mono, 0);
    assert!(widget.layout(Rect::new(0, 0, 0, 0)).is_empty());
}

#[test]
fn renders_stats_line() {
    let widget = StatusBarWidget::new(ColorTier::Mono).stats(142, 176).containerfile_delta(3);
    let ops = widget.layout(Rect::new(0, 0, 80, 1), 0);
    let output = paint(&ops, 80, 1);
    assert!(output.contains("142 incl"));
    assert!(output.contains("176 excl"));
    assert!(output.contains("Containerfile: 3\u{394}"));
}

#[test]
fn flash_overrides_stats() {
    let flash = FlashMessage::new("Resumed session (5 ops)".to_string(), 3, 1_000);
    let widget = StatusBarWidget::new(ColorTier::Mono).stats(100, 50).flash(Some(&flash));
    let ops = widget.layout(Rect::new(0, 0, 60, 1), 1_500);
    let output = paint(&ops, 60, 1);
    assert!(output.contains("Resumed session (5 ops)"));
    assert!(!output.contains("100 incl"));
}

#[test]
fn flash_expires_after_its_time() {
    let flash = FlashMessage::new("gone soon".to_string(), 3, 1_000);
    assert!(!flash.is_expired(3_999));
    assert!(flash.is_expired(4_000));
}

fn corpus() -> SearchCorpus {
    SearchCorpus {
        packages: vec![("httpd".into(), "x86_64".into()), ("bash".into(), "x86_64".into())],
        configs: vec!["/etc/httpd/conf/httpd.conf".into()],
        services: vec!["httpd.service".into()],
        dropins: vec!["HTTPD.service".into()],
        quadlets: vec![],
        flatpaks: vec!["org.example.Httpd".into()],
        sysctls: vec!["net.ipv4.ip_forward".into()],
        users: vec!["apache".into()],
        scheduled_tasks: vec![],
        non_rpm_software: vec![],
        selinux: vec![],
    }
}

#[test]
fn search_is_case_insensitive_and_ordered_by_section() {
    let results = search_all_sections(&corpus(), "HTTPD");
    let got: Vec<(SectionId, &str, &str)> =
        results.iter().map(|r| (r.section_id, r.name.as_str(), r.match_context.as_str())).collect();
    assert_eq!(
        got,
        vec![
            (SectionId::Packages, "httpd.x86_64", ""),
            (SectionId::Configs, "/etc/httpd/conf/httpd.conf", ""),
            (SectionId::Services, "httpd.service", ""),
            (SectionId::Services, "HTTPD.service", "drop-in"),
            (SectionId::Containers, "org.example.Httpd", "flatpak"),
        ]
    );
}

#[test]
fn empty_query_finds_nothing() {
    assert!(search_all_sections(&corpus(), "").is_empty());
}

#[test]
fn matches_query_is_substring() {
    assert!(matches_query("httpd.x86_64", "x86"));
    assert!(!matches_query("bash", "httpd"));
}

fn hit(section_id: SectionId, name: &str) -> SearchResult {
    SearchResult { section_id, name: name.into(), match_context: String::new() }
}

#[test]
fn section_counts_follow_sidebar_order() {
    let results = vec![
        hit(SectionId::Services, "a"),
        hit(SectionId::Packages, "b"),
        hit(SectionId::Services, "c"),
        hit(SectionId::SELinux, "d"),
    ];
    assert_eq!(
        section_counts(&results),
        vec![(SectionId::Packages, 1), (SectionId::SELinux, 1), (SectionId::Services, 2)]
    );
}

#[test]
fn search_overlay_shows_counts_and_selection() {
    let results = vec![hit(SectionId::Packages, "httpd.x86_64"), hit(SectionId::Configs, "/etc/httpd")];
    let widget = SearchWidget::new("httpd", &results, 1, ColorTier::Mono);
    let ops = widget.layout(Rect::new(0, 0, 60, 8));
    let text = paint(&ops, 60, 8);
    assert!(text.contains("/ httpd_"));
    assert!(text.contains("2 matches: 1 Packages, 1 Configs"));
    assert!(text.contains("[Packages] httpd.x86_64"));
    let selected: Vec<&str> = ops
        .iter()
        .filter_map(|o| match o {
            DrawOp::Text { text, style, .. } if style.token == Token::FocusSelected => Some(text.as_str()),
            _ => None,
        })
        .collect();
    assert_eq!(selected, vec!["[Configs] /etc/httpd"]);
}

#[test]
fn search_overlay_reports_no_matches() {
    let results: Vec<SearchResult> = vec![];
    let widget = SearchWidget::new("zzz", &results, 0, ColorTier::Mono);
    let ops = widget.layout(Rect::new(0, 0, 40, 5));
    assert!(paint(&ops, 40, 5).contains("No matches"));
}
