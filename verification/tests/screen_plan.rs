use inspectah::screen::{areas_from_splits, frame_plan, screen_areas, FramePlan, MainPanes, Overlay, ScreenStatus, SingleHostScreen, SIDEBAR_WIDTH};
use inspectah::tui_state::{ListItem, TuiState};
use inspectah::tui_types::{DetailMode, InputMode, SectionEntry, SectionId, TriageGroup};
use inspectah::widget::Rect;

fn row(name: &str, header: bool) -> ListItem {
    ListItem {
        name: name.to_string(),
        detail: String::new(),
        group: TriageGroup::Site,
        included: None,
        index: 0,
        item_id: None,
        has_content: false,
        locked: false,
        lock_reason: None,
        is_group_header: header,
        group_count: 0,
        is_collapsed: false,
        is_advisory: false,
        advisory_rationale: None,
    }
}

#[test]
fn main_panes_by_state() {
    let screen = SingleHostScreen::new();
    let mut state = TuiState::new(14);
    assert_eq!(screen.main_panes(&state, SectionId::Packages), MainPanes::SidebarAndList { info_bar: false });
    state.detail_mode = DetailMode::InfoBar;
    assert_eq!(screen.main_panes(&state, SectionId::Configs), MainPanes::SidebarAndList { info_bar: true });
    state.detail_mode = DetailMode::Fullscreen;
    assert_eq!(screen.main_panes(&state, SectionId::Configs), MainPanes::SidebarAndDetail);
    assert_eq!(screen.main_panes(&state, SectionId::Users), MainPanes::SidebarAndUsers);
    state.show_containerfile = true;
    assert_eq!(screen.main_panes(&state, SectionId::Users), MainPanes::ListAndContainerfile);
}

#[test]
fn status_counts_reviewed_items_of_the_section() {
    let screen = SingleHostScreen::new();
    let entries = vec![
        SectionEntry { id: SectionId::Packages, count: 4, included: 3, excluded: 1 },
        SectionEntry { id: SectionId::Configs, count: 2, included: 2, excluded: 0 },
    ];
    let viewed = vec!["packages:curl.x86_64".to_string(), "configs:/etc/x".to_string(), "packages:bash.x86_64".to_string(), "packagesx".to_string()];
    let items = vec![row("", true), row("curl.x86_64", false), row("bash.x86_64", false), row("", true), row("vim.x86_64", false)];
    let s = screen.status(&entries, SectionId::Packages, &viewed, &items);
    assert_eq!(s, ScreenStatus { included: 3, excluded: 1, reviewed: 2, total_reviewable: 3, decision_section: true });
    // A reference section without review tracking and without an entry.
    let s = screen.status(&entries, SectionId::Network, &viewed, &items);
    assert_eq!(s, ScreenStatus { included: 0, excluded: 0, reviewed: 0, total_reviewable: 0, decision_section: false });
}

#[test]
fn frame_too_small() {
    let p = frame_plan(Rect { x: 0, y: 0, width: 79, height: 30 }, InputMode::Normal);
    assert_eq!(p, FramePlan::TooSmall("Terminal too small (79x30). Minimum: 80x24.".to_string()));
    let p = frame_plan(Rect { x: 0, y: 0, width: 120, height: 23 }, InputMode::Help);
    assert_eq!(p, FramePlan::TooSmall("Terminal too small (120x23). Minimum: 80x24.".to_string()));
}

#[test]
fn frame_overlays() {
    let area = Rect { x: 0, y: 0, width: 100, height: 40 };
    assert_eq!(frame_plan(area, InputMode::Normal), FramePlan::Screen { overlay: None });
    assert_eq!(frame_plan(area, InputMode::Help), FramePlan::Screen { overlay: Some((Overlay::Help, area)) });
    assert_eq!(frame_plan(area, InputMode::Search), FramePlan::Screen { overlay: Some((Overlay::Search, area)) });
    assert_eq!(
        frame_plan(area, InputMode::Command),
        FramePlan::Screen { overlay: Some((Overlay::CommandLine, Rect { x: 0, y: 39, width: 100, height: 1 })) }
    );
    assert_eq!(
        frame_plan(area, InputMode::Confirm),
        FramePlan::Screen { overlay: Some((Overlay::ConfirmExport, Rect { x: 0, y: 35, width: 100, height: 5 })) }
    );
}

#[test]
fn screen_areas_default_layout() {
    let area = Rect { x: 0, y: 0, width: 100, height: 30 };
    let a = screen_areas(area, MainPanes::SidebarAndList { info_bar: false });
    assert_eq!(a.main, Rect { x: 0, y: 0, width: 100, height: 29 });
    assert_eq!(a.status, Rect { x: 0, y: 29, width: 100, height: 1 });
    assert_eq!(a.sidebar, Some(Rect { x: 0, y: 0, width: SIDEBAR_WIDTH, height: 29 }));
    assert_eq!(a.list, Rect { x: 18, y: 0, width: 82, height: 29 });
    assert_eq!(a.containerfile, None);
    assert_eq!(a.info_bar, None);
}

#[test]
fn screen_areas_info_bar_under_list() {
    let area = Rect { x: 0, y: 0, width: 100, height: 30 };
    let a = screen_areas(area, MainPanes::SidebarAndList { info_bar: true });
    assert_eq!(a.list, Rect { x: 18, y: 0, width: 82, height: 25 });
    assert_eq!(a.info_bar, Some(Rect { x: 18, y: 25, width: 82, height: 4 }));
}

#[test]
fn screen_areas_containerfile_halves() {
    let area = Rect { x: 0, y: 0, width: 100, height: 30 };
    let a = screen_areas(area, MainPanes::ListAndContainerfile);
    assert_eq!(a.sidebar, None);
    assert_eq!(a.list, Rect { x: 0, y: 0, width: 50, height: 29 });
    assert_eq!(a.containerfile, Some(Rect { x: 50, y: 0, width: 50, height: 29 }));
}

#[test]
fn areas_from_splits_places_each_pane() {
    let r = |x: u16, w: u16| Rect { x, y: 0, width: w, height: 10 };
    let rows = (r(0, 100), Rect { x: 0, y: 10, width: 100, height: 1 });
    let cols = (r(0, 18), r(18, 82));
    let list_rows = (Rect { x: 18, y: 0, width: 82, height: 6 }, Rect { x: 18, y: 6, width: 82, height: 4 });
    let a = areas_from_splits(MainPanes::SidebarAndList { info_bar: true }, rows, cols, list_rows);
    assert_eq!((a.main, a.status, a.sidebar, a.list, a.info_bar, a.containerfile), (rows.0, rows.1, Some(cols.0), list_rows.0, Some(list_rows.1), None));
    let a = areas_from_splits(MainPanes::SidebarAndDetail, rows, cols, list_rows);
    assert_eq!((a.sidebar, a.list, a.info_bar), (Some(cols.0), cols.1, None));
    let a = areas_from_splits(MainPanes::ListAndContainerfile, rows, cols, list_rows);
    assert_eq!((a.sidebar, a.list, a.containerfile), (None, cols.0, Some(cols.1)));
}
