use inspectah::action::Action;
use inspectah::app::{parse_command, App, Effect, SessionView};
use inspectah::screen::{bucket_to_group, build_repo_bar_line, RepoGroup, TriageBucket};
use inspectah::tui_state::{build_grouped_items, ListItem, RawItem, TuiState};
use inspectah::tui_types::{
    group_to_bucket_index, item_id_to_viewed_key, DetailMode, FocusTarget, InputMode, ItemId, SectionId, TriageGroup,
};
use inspectah::widget::search::SearchResult;

fn raw(name: &str, group: TriageGroup, included: Option<bool>) -> RawItem {
    RawItem {
        name: name.into(),
        detail: String::new(),
        group,
        included,
        item_id: None,
        has_content: false,
        locked: false,
        lock_reason: None,
        is_advisory: false,
        advisory_rationale: None,
    }
}

fn advisory(name: &str, group: TriageGroup, rationale: &str) -> RawItem {
    RawItem {
        name: name.into(),
        detail: String::new(),
        group,
        included: None,
        item_id: None,
        has_content: false,
        locked: false,
        lock_reason: None,
        is_advisory: true,
        advisory_rationale: Some(rationale.into()),
    }
}

#[test]
fn bucket_to_group_maps_all_variants() {
    assert_eq!(bucket_to_group(TriageBucket::Investigate), TriageGroup::Investigate);
    assert_eq!(bucket_to_group(TriageBucket::Site), TriageGroup::Site);
    assert_eq!(bucket_to_group(TriageBucket::Baseline), TriageGroup::Baseline);
}

#[test]
fn bucket_indices_follow_display_order() {
    assert_eq!(group_to_bucket_index(TriageGroup::Investigate), 0);
    assert_eq!(group_to_bucket_index(TriageGroup::Site), 1);
    assert_eq!(group_to_bucket_index(TriageGroup::Baseline), 2);
}

#[test]
fn empty_items_produce_empty_grouped() {
    let state = TuiState::new(14);
    assert!(build_grouped_items(&[], &state).is_empty());
}

#[test]
fn grouped_items_have_headers_then_items() {
    let items = vec![
        raw("httpd", TriageGroup::Investigate, Some(true)),
        raw("nginx", TriageGroup::Investigate, Some(false)),
        raw("bash", TriageGroup::Baseline, Some(true)),
    ];
    let state = TuiState::new(14);
    let result = build_grouped_items(&items, &state);
    assert_eq!(result.len(), 4);
    assert!(result[0].is_group_header);
    assert_eq!(result[0].group, TriageGroup::Investigate);
    assert_eq!(result[0].group_count, 2);
    assert!(!result[1].is_group_header);
    assert_eq!(result[1].name, "httpd");
    assert!(!result[2].is_group_header);
    assert_eq!(result[2].name, "nginx");
    assert_eq!(result[2].index, 1);
    assert!(result[3].is_group_header);
    assert_eq!(result[3].group, TriageGroup::Baseline);
    assert!(result[3].is_collapsed);
}

#[test]
fn ifcfg_deprecation_advisory_renders_in_grouped_output() {
    let items = vec![
        raw("eth0", TriageGroup::Site, None),
        advisory(
            "ifcfg deprecation",
            TriageGroup::Site,
            "ifcfg network scripts are deprecated in RHEL 9 and removed in RHEL 10",
        ),
    ];
    let state = TuiState::new(14);
    let result = build_grouped_items(&items, &state);
    assert_eq!(result.len(), 3);
    let adv = &result[2];
    assert!(adv.is_advisory, "ifcfg item must be advisory");
    assert_eq!(adv.name, "ifcfg deprecation");
    assert!(adv.advisory_rationale.as_ref().unwrap().contains("deprecated in RHEL 9"));
}

#[test]
fn advisory_items_are_marked_in_grouped_output() {
    let items = vec![advisory("sshd.service", TriageGroup::Investigate, "full-shadow service")];
    let state = TuiState::new(14);
    let result = build_grouped_items(&items, &state);
    assert_eq!(result.len(), 2);
    assert!(result[0].is_group_header);
    assert!(result[1].is_advisory);
    assert!(result[1].advisory_rationale.is_some());
}

#[test]
fn viewed_keys() {
    let p = ItemId::Package { name: "httpd".into(), arch: "x86_64".into() };
    assert_eq!(item_id_to_viewed_key(&p), "httpd.x86_64");
    let f = ItemId::Flatpak { app_id: "org.a.B".into(), remote: "flathub".into(), branch: "stable".into() };
    assert_eq!(item_id_to_viewed_key(&f), "org.a.B/flathub/stable");
    assert_eq!(item_id_to_viewed_key(&ItemId::Config { path: "/etc/x".into() }), "/etc/x");
}

#[test]
fn repo_bar_line() {
    assert_eq!(build_repo_bar_line(&vec![]), None);
    let groups = vec![
        RepoGroup { section_id: "rhel-9-baseos".into(), enabled: true, package_count: 120 },
        RepoGroup { section_id: String::new(), enabled: false, package_count: 45 },
    ];
    assert_eq!(build_repo_bar_line(&groups).unwrap(), "Repos: [+]rhel-9-baseos(120)  [-](none)(45)");
}

fn header(group: TriageGroup) -> ListItem {
    ListItem {
        name: String::new(),
        detail: String::new(),
        group,
        included: None,
        index: 0,
        item_id: None,
        has_content: false,
        locked: false,
        lock_reason: None,
        is_group_header: true,
        group_count: 1,
        is_collapsed: false,
        is_advisory: false,
        advisory_rationale: None,
    }
}

fn item(name: &str, id: Option<ItemId>, has_content: bool, locked: bool) -> ListItem {
    ListItem {
        name: name.into(),
        detail: String::new(),
        group: TriageGroup::Investigate,
        included: Some(true),
        index: 0,
        item_id: id,
        has_content,
        locked,
        lock_reason: None,
        is_group_header: false,
        group_count: 0,
        is_collapsed: false,
        is_advisory: false,
        advisory_rationale: None,
    }
}

fn view(items: Vec<ListItem>) -> SessionView {
    SessionView {
        items,
        users: vec!["alice".into()],
        now_ms: 10_000,
        is_sensitive: false,
        tarball_name: Some("host.tar.gz".into()),
        ops_applied: 4,
        can_undo: true,
        can_redo: false,
        needs_review: 2,
    }
}

fn package_items() -> Vec<ListItem> {
    vec![
        header(TriageGroup::Investigate),
        item("httpd.x86_64", Some(ItemId::Package { name: "httpd".into(), arch: "x86_64".into() }), false, false),
        item("nginx.x86_64", Some(ItemId::Package { name: "nginx".into(), arch: "x86_64".into() }), true, true),
        header(TriageGroup::Baseline),
    ]
}

#[test]
fn quit_sets_the_flag() {
    let mut app = App::new();
    app.handle_action(Action::Quit, &view(vec![]));
    assert!(app.should_quit);
}

#[test]
fn cursor_moves_within_the_list() {
    let mut app = App::new();
    let v = view(package_items());
    app.handle_action(Action::CursorDown, &v);
    app.handle_action(Action::CursorDown, &v);
    app.handle_action(Action::CursorDown, &v);
    app.handle_action(Action::CursorDown, &v);
    assert_eq!(app.state.cursor, 3);
    app.handle_action(Action::CursorTop, &v);
    assert_eq!(app.state.cursor, 0);
    app.handle_action(Action::CursorUp, &v);
    assert_eq!(app.state.cursor, 0);
    app.handle_action(Action::CursorBottom, &v);
    assert_eq!(app.state.cursor, 3);
    app.handle_action(Action::PrevGroup, &v);
    assert_eq!(app.state.cursor, 0);
    app.handle_action(Action::NextGroup, &v);
    assert_eq!(app.state.cursor, 3);
}

#[test]
fn sidebar_remembers_each_section_cursor() {
    let mut app = App::new();
    let v = view(package_items());
    app.handle_action(Action::CursorDown, &v);
    app.handle_action(Action::CursorDown, &v);
    app.handle_action(Action::FocusSidebar, &v);
    app.handle_action(Action::CursorDown, &v);
    assert_eq!(app.state.active_section, 1);
    assert_eq!(app.state.cursor, 0);
    app.handle_action(Action::CursorUp, &v);
    assert_eq!(app.state.active_section, 0);
    assert_eq!(app.state.cursor, 2);
}

#[test]
fn enter_on_header_toggles_collapse() {
    let mut app = App::new();
    let v = view(package_items());
    app.handle_action(Action::OpenDetail, &v);
    assert!(app.state.collapsed_groups.contains(&(0, 0)));
    app.handle_action(Action::OpenDetail, &v);
    assert!(!app.state.collapsed_groups.contains(&(0, 0)));
    assert!(app.state.collapsed_groups.contains(&(0, 2)));
}

#[test]
fn enter_on_item_opens_detail_and_marks_viewed() {
    let mut app = App::new();
    let v = view(package_items());
    app.handle_action(Action::CursorDown, &v);
    let e = app.handle_action(Action::OpenDetail, &v);
    assert_eq!(app.state.detail_mode, DetailMode::InfoBar);
    match e {
        Effect::MarkViewed { viewed_id } => assert_eq!(viewed_id, "packages:httpd.x86_64"),
        other => panic!("unexpected {other:?}"),
    }
    app.handle_action(Action::PromoteDetail, &v);
    assert_eq!(app.state.detail_mode, DetailMode::Fullscreen);
    app.handle_action(Action::CycleFocus, &v);
    assert_eq!(app.state.focus, FocusTarget::DetailPane);
    app.handle_action(Action::CloseDetail, &v);
    assert_eq!(app.state.detail_mode, DetailMode::Closed);
    assert_eq!(app.state.focus, FocusTarget::ItemList);
}

#[test]
fn toggle_flips_inclusion_but_not_locked_items() {
    let mut app = App::new();
    let v = view(package_items());
    app.handle_action(Action::CursorDown, &v);
    match app.handle_action(Action::ToggleItem, &v) {
        Effect::SetIncluded { item_id, included } => {
            assert_eq!(item_id, ItemId::Package { name: "httpd".into(), arch: "x86_64".into() });
            assert!(!included);
        }
        other => panic!("unexpected {other:?}"),
    }
    app.handle_action(Action::CursorDown, &v);
    assert!(matches!(app.handle_action(Action::ToggleItem, &v), Effect::Nothing));
    assert_eq!(app.state.flash.as_ref().unwrap().text, "Locked: item is locked");
}

#[test]
fn failed_effects_flash_their_reason() {
    let mut app = App::new();
    app.effect_failed(&Effect::Undo, "nothing to undo", 5_000);
    let f = app.state.flash.clone().unwrap();
    assert_eq!(f.text, "Undo: nothing to undo");
    assert_eq!(f.ttl_secs, 3);
    app.tick(7_999);
    assert!(app.state.flash.is_some());
    app.tick(8_000);
    assert!(app.state.flash.is_none());
}

#[test]
fn search_flow() {
    let mut app = App::new();
    let v = view(package_items());
    app.handle_action(Action::EnterSearch, &v);
    assert_eq!(app.state.input_mode, InputMode::Search);
    match app.handle_action(Action::InputChar('h'), &v) {
        Effect::Search { query } => assert_eq!(query, "h"),
        other => panic!("unexpected {other:?}"),
    }
    app.set_search_results(vec![
        SearchResult { section_id: SectionId::Packages, name: "httpd.x86_64".into(), match_context: String::new() },
        SearchResult { section_id: SectionId::Configs, name: "/etc/httpd".into(), match_context: String::new() },
    ]);
    app.handle_action(Action::CursorDown, &v);
    app.handle_action(Action::CursorDown, &v);
    assert_eq!(app.search_selected, 1);
    match app.handle_action(Action::SubmitInput, &v) {
        Effect::JumpToResult { section, name } => {
            assert_eq!(section, SectionId::Configs);
            assert_eq!(name, "/etc/httpd");
        }
        other => panic!("unexpected {other:?}"),
    }
    assert_eq!(app.state.active_section, 2);
    assert_eq!(app.state.input_mode, InputMode::Normal);
    assert!(app.state.search_query.is_empty());
    let items = vec![header(TriageGroup::Site), item("/etc/httpd", None, false, false)];
    app.place_cursor(&items, "/etc/httpd");
    assert_eq!(app.state.cursor, 1);
}

#[test]
fn help_toggles() {
    let mut app = App::new();
    let v = view(vec![]);
    app.handle_action(Action::ShowHelp, &v);
    assert_eq!(app.state.input_mode, InputMode::Help);
    app.handle_action(Action::CloseDetail, &v);
    assert_eq!(app.state.input_mode, InputMode::Normal);
}

fn run_command(app: &mut App, v: &SessionView, cmd: &str) -> Effect {
    app.handle_action(Action::EnterCommand, v);
    for c in cmd.chars() {
        app.handle_action(Action::InputChar(c), v);
    }
    app.handle_action(Action::SubmitInput, v)
}

#[test]
fn commands() {
    let v = view(vec![]);
    let mut app = App::new();
    match run_command(&mut app, &v, "export") {
        Effect::Export { path } => assert_eq!(path, "./host-refined.tar.gz"),
        other => panic!("unexpected {other:?}"),
    }
    match run_command(&mut app, &v, "save  /tmp/out.tar.gz ") {
        Effect::Export { path } => assert_eq!(path, "/tmp/out.tar.gz"),
        other => panic!("unexpected {other:?}"),
    }
    run_command(&mut app, &v, "section kern");
    assert_eq!(app.state.active_section, 5);
    run_command(&mut app, &v, "section nowhere");
    assert_eq!(app.state.flash.as_ref().unwrap().text, "Unknown section: nowhere");
    run_command(&mut app, &v, "stats");
    assert_eq!(app.state.flash.as_ref().unwrap().text, "ops: 4 | undo: yes | redo: no | review: 2");
    run_command(&mut app, &v, "bogus");
    assert_eq!(app.state.flash.as_ref().unwrap().text, "Unknown command: bogus");
    assert!(matches!(run_command(&mut app, &v, "undo"), Effect::Undo));
    assert!(matches!(run_command(&mut app, &v, "fresh"), Effect::Fresh));
    run_command(&mut app, &v, "quit");
    assert!(app.should_quit);
    assert_eq!(app.state.input_mode, InputMode::Normal);
}

#[test]
fn sensitive_export_asks_first() {
    let mut v = view(vec![]);
    v.is_sensitive = true;
    v.tarball_name = None;
    let mut app = App::new();
    assert!(matches!(run_command(&mut app, &v, "export"), Effect::Nothing));
    assert_eq!(app.state.input_mode, InputMode::Confirm);
    match app.handle_action(Action::ConfirmYes, &v) {
        Effect::Export { path } => assert_eq!(path, "./inspectah-refined.tar.gz"),
        other => panic!("unexpected {other:?}"),
    }
    run_command(&mut app, &v, "export");
    app.handle_action(Action::ConfirmNo, &v);
    assert!(app.pending_export_path.is_none());
    assert_eq!(app.state.flash.as_ref().unwrap().text, "Export cancelled.");
}

#[test]
fn command_parsing() {
    assert_eq!(parse_command("  export /tmp/x  "), Some(("export".to_string(), "/tmp/x".to_string())));
    assert_eq!(parse_command("stats"), Some(("stats".to_string(), String::new())));
    assert_eq!(parse_command("   "), None);
}

#[test]
fn users_section_cycles_strategy_and_password() {
    let mut app = App::new();
    let v = view(vec![]);
    app.handle_action(Action::JumpToSection(10), &v);
    match app.handle_action(Action::ToggleItem, &v) {
        Effect::CycleUserStrategy { username } => assert_eq!(username, "alice"),
        other => panic!("unexpected {other:?}"),
    }
    match app.handle_action(Action::OpenDetail, &v) {
        Effect::CycleUserPassword { username } => assert_eq!(username, "alice"),
        other => panic!("unexpected {other:?}"),
    }
}

#[test]
fn fresh_reload_resets_the_ui() {
    let mut app = App::new();
    let v = view(package_items());
    app.handle_action(Action::CursorDown, &v);
    app.fresh_done(1_000);
    assert_eq!(app.state.cursor, 0);
    assert_eq!(app.state.flash.as_ref().unwrap().text, "Session reset from tarball");
}
