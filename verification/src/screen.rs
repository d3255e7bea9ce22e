//! The screens of the terminal UI, and the pieces of the single-host
//! screen that do not need the session: bucket mapping and the repo bar.

use vstd::prelude::*;

use crate::text::{decimal, join_seq, push_decimal, push_str, starts_with};
use crate::tui_state::{ListItem, TuiState};
use crate::tui_types::{is_decision_section, viewed_prefix_of, DetailMode, InputMode, SectionEntry, SectionId, TriageGroup};
use crate::widget::{rect_bottom, rect_right, Rect};
use ratatui::layout::{Constraint, Direction, Layout};

verus! {

/// The single-host screen: sidebar, triage list, and status bar.
#[derive(Clone, Copy)]
pub struct SingleHostScreen;

impl SingleHostScreen {
    pub fn new() -> (s: Self) {
        SingleHostScreen
    }
}

/// The screens the UI can show.
pub enum Screen {
    SingleHost(SingleHostScreen),
}

/// Triage bucket of an item as the session classifies it.
#[derive(Debug, Clone, Copy, PartialEq, Eq, Structural)]
pub enum TriageBucket {
    Investigate,
    Site,
    Baseline,
}

/// The list group that shows a session bucket.
pub open spec fn group_of_bucket(b: TriageBucket) -> TriageGroup {
    match b {
        TriageBucket::Investigate => TriageGroup::Investigate,
        TriageBucket::Site => TriageGroup::Site,
        TriageBucket::Baseline => TriageGroup::Baseline,
    }
}

/// Map a session triage bucket to the list group that shows it.
pub fn bucket_to_group(bucket: TriageBucket) -> (g: TriageGroup)
    ensures
        g == group_of_bucket(bucket),
{
    match bucket {
        TriageBucket::Investigate => TriageGroup::Investigate,
        TriageBucket::Site => TriageGroup::Site,
        TriageBucket::Baseline => TriageGroup::Baseline,
    }
}

/// A repository group of the session: its section id, whether it is
/// enabled, and how many packages come from it.
pub struct RepoGroup {
    pub section_id: String,
    pub enabled: bool,
    pub package_count: usize,
}

/// `[+]label(count)`, `-` when disabled, `(none)` for an empty label.
pub open spec fn repo_part(g: RepoGroup) -> Seq<char> {
    "["@ + (if g.enabled { "+"@ } else { "-"@ }) + "]"@
        + (if g.section_id@.len() == 0 { "(none)"@ } else { g.section_id@ })
        + "("@ + decimal(g.package_count as nat) + ")"@
}

/// The repo summary line: `Repos: ` and the parts separated by two spaces.
pub open spec fn repo_bar_spec(groups: Seq<RepoGroup>) -> Option<Seq<char>> {
    if groups.len() == 0 {
        None
    } else {
        Some("Repos: "@ + join_seq(groups.map_values(|g: RepoGroup| repo_part(g)), "  "@))
    }
}

/// The compact repo summary of the list header, like
/// `Repos: [+]rhel-9-baseos(120)  [-]appstream(45)`; nothing without groups.
pub fn build_repo_bar_line(groups: &Vec<RepoGroup>) -> (r: Option<String>)
    ensures
        match r {
            Some(s) => repo_bar_spec(groups@) == Some(s@),
            None => repo_bar_spec(groups@) is None,
        },
{
    if groups.len() == 0 {
        return None;
    }
    let ghost parts = groups@.map_values(|g: RepoGroup| repo_part(g));
    let mut joined = String::new();
    let mut k: usize = 0;
    while k < groups.len()
        invariant
            0 <= k <= groups@.len(),
            parts == groups@.map_values(|g: RepoGroup| repo_part(g)),
            joined@ == join_seq(parts.take(k as int), "  "@),
        decreases groups@.len() - k,
    {
        let ghost prev = parts.take(k as int);
        if k > 0 {
            push_str(&mut joined, "  ");
        }
        let g = &groups[k];
        push_str(&mut joined, "[");
        push_str(&mut joined, if g.enabled { "+" } else { "-" });
        push_str(&mut joined, "]");
        let len = crate::pull_progress::byte_length(g.section_id.as_str());
        proof { crate::pull_progress::lemma_byte_len_bounds(g.section_id@); }
        if len == 0 {
            push_str(&mut joined, "(none)");
        } else {
            push_str(&mut joined, g.section_id.as_str());
        }
        push_str(&mut joined, "(");
        push_decimal(&mut joined, g.package_count);
        push_str(&mut joined, ")");
        proof {
            assert(parts.take(k + 1).drop_last() =~= prev);
            assert(parts[k as int] == repo_part(groups@[k as int]));
            if k == 0 {
                assert(parts.take(1) =~= seq![parts[0]]);
            }
        }
        k = k + 1;
    }
    assert(parts.take(groups@.len() as int) =~= parts);
    let mut s = String::new();
    push_str(&mut s, "Repos: ");
    push_str(&mut s, joined.as_str());
    Some(s)
}

} // verus!

verus! {

// ---- what a frame shows ----

/// What the main area of the single-host screen shows.
#[derive(Debug, Clone, Copy, PartialEq, Eq, Structural)]
pub enum MainPanes {
    /// The item list and the Containerfile preview, side by side.
    ListAndContainerfile,
    /// The sidebar and the user strategy view.
    SidebarAndUsers,
    /// The sidebar and the full-screen detail of the selected item.
    SidebarAndDetail,
    /// The sidebar and the item list, with the info bar under the list.
    SidebarAndList { info_bar: bool },
}

/// The Containerfile preview replaces the sidebar; otherwise the users
/// section has its own view, a full-screen detail replaces the list, and
/// the info bar goes under the list when it is open.
pub open spec fn main_panes_spec(show_containerfile: bool, detail: DetailMode, active: SectionId) -> MainPanes {
    if show_containerfile {
        MainPanes::ListAndContainerfile
    } else if active == SectionId::Users {
        MainPanes::SidebarAndUsers
    } else if detail == DetailMode::Fullscreen {
        MainPanes::SidebarAndDetail
    } else {
        MainPanes::SidebarAndList { info_bar: detail == DetailMode::InfoBar }
    }
}

/// The figures of the status bar.
#[derive(Debug, Clone, Copy, PartialEq, Eq, Structural)]
pub struct ScreenStatus {
    pub included: usize,
    pub excluded: usize,
    pub reviewed: usize,
    pub total_reviewable: usize,
    pub decision_section: bool,
}

/// The entry of section `id`, the first when several are.
pub open spec fn entry_of(entries: Seq<SectionEntry>, id: SectionId) -> Option<SectionEntry>
    decreases entries.len(),
{
    if entries.len() == 0 {
        None
    } else if entries[0].id == id {
        Some(entries[0])
    } else {
        entry_of(entries.drop_first(), id)
    }
}

/// How many of the keys start with `p`.
pub open spec fn count_prefixed(keys: Seq<Seq<char>>, p: Seq<char>) -> nat
    decreases keys.len(),
{
    if keys.len() == 0 {
        0
    } else {
        count_prefixed(keys.drop_last(), p) + (if starts_with(keys.last(), p) { 1nat } else { 0nat })
    }
}

/// How many rows are items rather than group headers.
pub open spec fn count_item_rows(items: Seq<ListItem>) -> nat
    decreases items.len(),
{
    if items.len() == 0 {
        0
    } else {
        count_item_rows(items.drop_last()) + (if items.last().is_group_header { 0nat } else { 1nat })
    }
}

/// The status bar of section `active`: the included and excluded counts of
/// its entry (none without one), and for a reviewed section how many of
/// the viewed keys are its own (`prefix:`) out of its listed items.
pub open spec fn status_spec(entries: Seq<SectionEntry>, active: SectionId, viewed: Seq<Seq<char>>, items: Seq<ListItem>) -> ScreenStatus {
    let (included, excluded) = match entry_of(entries, active) {
        Some(e) => (e.included, e.excluded),
        None => (0usize, 0usize),
    };
    let (reviewed, total) = match viewed_prefix_of(active) {
        Some(p) => (count_prefixed(viewed, p + ":"@) as usize, count_item_rows(items) as usize),
        None => (0usize, 0usize),
    };
    ScreenStatus { included, excluded, reviewed, total_reviewable: total, decision_section: is_decision_section(active) }
}

proof fn lemma_count_prefixed_le(keys: Seq<Seq<char>>, p: Seq<char>)
    ensures
        count_prefixed(keys, p) <= keys.len(),
    decreases keys.len(),
{
    if keys.len() > 0 {
        lemma_count_prefixed_le(keys.drop_last(), p);
    }
}

proof fn lemma_count_rows_le(items: Seq<ListItem>)
    ensures
        count_item_rows(items) <= items.len(),
    decreases items.len(),
{
    if items.len() > 0 {
        lemma_count_rows_le(items.drop_last());
    }
}

fn starts_with_exec(s: &str, p: &str) -> (b: bool)
    ensures
        b == starts_with(s@, p@),
{
    let x = crate::text::chars_of(s);
    let y = crate::text::chars_of(p);
    if y.len() > x.len() {
        proof {
            assert(!crate::text::occurs_at(s@, p@, 0));
        }
        return false;
    }
    crate::text::matches_at(&x, &y, 0)
}

fn entry_counts(entries: &Vec<SectionEntry>, active: SectionId) -> (r: (usize, usize))
    ensures
        r == (match entry_of(entries@, active) {
            Some(e) => (e.included, e.excluded),
            None => (0usize, 0usize),
        }),
{
    let mut i: usize = 0;
    assert(entries@.skip(0) =~= entries@);
    while i < entries.len()
        invariant
            0 <= i <= entries@.len(),
            entry_of(entries@, active) == entry_of(entries@.skip(i as int), active),
        decreases entries@.len() - i,
    {
        assert(entries@.skip(i as int)[0] == entries@[i as int]);
        if entries[i].id == active {
            return (entries[i].included, entries[i].excluded);
        }
        assert(entries@.skip(i as int).drop_first() =~= entries@.skip(i + 1));
        i = i + 1;
    }
    (0, 0)
}

impl SingleHostScreen {
    /// What the main area shows for the state and the active section.
    pub fn main_panes(&self, state: &TuiState, active: SectionId) -> (p: MainPanes)
        ensures
            p == main_panes_spec(state.show_containerfile, state.detail_mode, active),
    {
        if state.show_containerfile {
            MainPanes::ListAndContainerfile
        } else if active == SectionId::Users {
            MainPanes::SidebarAndUsers
        } else {
            match state.detail_mode {
                DetailMode::Fullscreen => MainPanes::SidebarAndDetail,
                DetailMode::InfoBar => MainPanes::SidebarAndList { info_bar: true },
                DetailMode::Closed => MainPanes::SidebarAndList { info_bar: false },
            }
        }
    }

    /// The status bar figures of the active section.
    pub fn status(&self, entries: &Vec<SectionEntry>, active: SectionId, viewed: &Vec<String>, items: &Vec<ListItem>) -> (s: ScreenStatus)
        ensures
            s == status_spec(entries@, active, crate::text::string_views(viewed@), items@),
    {
        let (included, excluded) = entry_counts(entries, active);
        let (reviewed, total) = match active.viewed_prefix() {
            Some(p) => {
                let mut prefix = p.to_owned();
                push_str(&mut prefix, ":");
                let ghost vs = crate::text::string_views(viewed@);
                let mut r: usize = 0;
                let mut k: usize = 0;
                while k < viewed.len()
                    invariant
                        0 <= k <= viewed@.len(),
                        vs == crate::text::string_views(viewed@),
                        r == count_prefixed(vs.take(k as int), prefix@),
                        r <= k,
                    decreases viewed@.len() - k,
                {
                    assert(vs.take(k + 1).drop_last() =~= vs.take(k as int));
                    assert(vs.take(k + 1).last() == viewed@[k as int]@);
                    if starts_with_exec(viewed[k].as_str(), prefix.as_str()) {
                        r = r + 1;
                    }
                    k = k + 1;
                }
                assert(vs.take(viewed@.len() as int) =~= vs);
                let mut t: usize = 0;
                let mut j: usize = 0;
                while j < items.len()
                    invariant
                        0 <= j <= items@.len(),
                        t == count_item_rows(items@.take(j as int)),
                        t <= j,
                    decreases items@.len() - j,
                {
                    assert(items@.take(j + 1).drop_last() =~= items@.take(j as int));
                    if !items[j].is_group_header {
                        t = t + 1;
                    }
                    j = j + 1;
                }
                assert(items@.take(items@.len() as int) =~= items@);
                (r, t)
            },
            None => (0, 0),
        };
        ScreenStatus { included, excluded, reviewed, total_reviewable: total, decision_section: active.is_decision() }
    }
}

/// What overlays the screen, by input mode.
#[derive(Debug, Clone, Copy, PartialEq, Eq, Structural)]
pub enum Overlay {
    Help,
    Search,
    CommandLine,
    ConfirmExport,
}

pub open spec fn overlay_of(m: InputMode) -> Option<Overlay> {
    match m {
        InputMode::Help => Some(Overlay::Help),
        InputMode::Search => Some(Overlay::Search),
        InputMode::Command => Some(Overlay::CommandLine),
        InputMode::Confirm => Some(Overlay::ConfirmExport),
        InputMode::Normal => None,
    }
}

/// The smallest terminal the UI draws in.
pub const MIN_WIDTH: u16 = 80;
pub const MIN_HEIGHT: u16 = 24;

/// What a frame shows: a notice when the terminal is too small; else the
/// screen, with the overlay of the input mode in its area.
#[derive(Debug, Clone, PartialEq, Eq)]
pub enum FramePlan {
    TooSmall(String),
    Screen { overlay: Option<(Overlay, Rect)> },
}

pub open spec fn sat_sub(a: int, b: int) -> u16 {
    if a >= b { (a - b) as u16 } else { 0 }
}

/// Where an overlay is drawn: help and search over the whole area, the
/// command line on the bottom row, the export warning on the bottom five
/// rows.
pub open spec fn overlay_area(o: Overlay, area: Rect) -> Rect {
    match o {
        Overlay::Help => area,
        Overlay::Search => area,
        Overlay::CommandLine => Rect { x: area.x, y: sat_sub(rect_bottom(area), 1), width: area.width, height: 1 },
        Overlay::ConfirmExport => Rect {
            x: area.x,
            y: sat_sub(rect_bottom(area), 5),
            width: area.width,
            height: if area.height < 5 { area.height } else { 5 },
        },
    }
}

pub open spec fn too_small_text(w: u16, h: u16) -> Seq<char> {
    "Terminal too small ("@ + decimal(w as nat) + "x"@ + decimal(h as nat) + "). Minimum: 80x24."@
}

/// The terminal is too small to draw in.
pub open spec fn too_small(area: Rect) -> bool {
    area.width < MIN_WIDTH || area.height < MIN_HEIGHT
}

/// The screen with the overlay of the input mode in its area.
pub open spec fn screen_plan(area: Rect, mode: InputMode) -> FramePlan {
    FramePlan::Screen {
        overlay: match overlay_of(mode) {
            Some(o) => Some((o, overlay_area(o, area))),
            None => None,
        },
    }
}

/// What a frame of the given area shows in the given input mode.
pub fn frame_plan(area: Rect, mode: InputMode) -> (p: FramePlan)
    ensures
        too_small(area) ==> (p matches FramePlan::TooSmall(m) && m@ == too_small_text(area.width, area.height)),
        !too_small(area) ==> p == screen_plan(area, mode),
{
    if area.width < MIN_WIDTH || area.height < MIN_HEIGHT {
        let mut m = "Terminal too small (".to_owned();
        push_decimal(&mut m, area.width as usize);
        push_str(&mut m, "x");
        push_decimal(&mut m, area.height as usize);
        push_str(&mut m, "). Minimum: 80x24.");
        return FramePlan::TooSmall(m);
    }
    let bottom = area.bottom();
    let o = match mode {
        InputMode::Help => Some(Overlay::Help),
        InputMode::Search => Some(Overlay::Search),
        InputMode::Command => Some(Overlay::CommandLine),
        InputMode::Confirm => Some(Overlay::ConfirmExport),
        InputMode::Normal => None,
    };
    let overlay = match o {
        Some(Overlay::CommandLine) => Some((Overlay::CommandLine, Rect { x: area.x, y: bottom.saturating_sub(1), width: area.width, height: 1 })),
        Some(Overlay::ConfirmExport) => {
            let h: u16 = if area.height < 5 { area.height } else { 5 };
            Some((Overlay::ConfirmExport, Rect { x: area.x, y: bottom.saturating_sub(5), width: area.width, height: h }))
        },
        Some(x) => Some((x, area)),
        None => None,
    };
    FramePlan::Screen { overlay }
}

/// An overlay stays inside the frame it is drawn on: same columns, and
/// rows between the frame's top and bottom.
pub proof fn law_overlay_inside_frame(o: Overlay, area: Rect)
    requires
        !too_small(area),
        area.y + area.height <= u16::MAX,
    ensures
        overlay_area(o, area).x == area.x,
        overlay_area(o, area).width == area.width,
        area.y <= overlay_area(o, area).y,
        overlay_area(o, area).y + overlay_area(o, area).height <= rect_bottom(area),
{
}

// ---- the areas of the single-host screen ----

/// Width of the sidebar, in columns.
pub const SIDEBAR_WIDTH: u16 = 18;

/// A constraint on one part of a split area.
#[derive(Debug, Clone, Copy, PartialEq, Eq, Structural)]
pub enum SplitConstraint {
    /// At least this many rows or columns.
    Min(u16),
    /// Exactly this many rows or columns.
    Length(u16),
    /// This share of the area, in percent.
    Percentage(u16),
}

/// `r` is one of the areas a split of `area` gives: a vertical split keeps
/// the columns of `area` and cuts its rows, a horizontal one keeps the
/// rows and cuts the columns, and the part lies within `area` along the
/// cut.
pub open spec fn within_split(r: Rect, area: Rect, vertical: bool) -> bool {
    if vertical {
        &&& r.x == area.x
        &&& r.width == area.width
        &&& area.y <= r.y
        &&& r.y + r.height <= rect_bottom(area)
    } else {
        &&& r.y == area.y
        &&& r.height == area.height
        &&& area.x <= r.x
        &&& r.x + r.width <= rect_right(area)
    }
}

/// The areas `parts` are an answer of ratatui's layout solver for
/// splitting `area` (vertically, or horizontally) under `constraints`.
/// This is a relation, not a function: the solver walks hash maps that
/// each process seeds anew, so it may give other areas on another call,
/// and the relation may hold of several answers.
pub uninterp spec fn layout_outcome(area: Rect, vertical: bool, constraints: Seq<SplitConstraint>, parts: Seq<Rect>) -> bool;

/// `ratatui::layout::Layout::split` with the default margin, flex and
/// spacing. The contract claims that the result is an answer of the
/// solver for these arguments (which one is not stated), with one area
/// per constraint, each within the split area as `within_split` says:
/// the kept coordinate and extent are copied from the area, and the cut
/// ones come from solver variables that the solver's required constraints
/// hold between the area's two edges. The order of the parts along the
/// cut is not stated: no required constraint fixes it. The solver's
/// failure on constraints that cannot be added is not ruled out here.
#[verifier::external_body]
fn split_area(area: Rect, vertical: bool, constraints: &Vec<SplitConstraint>) -> (v: Vec<Rect>)
    ensures
        v@.len() == constraints@.len(),
        layout_outcome(area, vertical, constraints@, v@),
        forall|k: int| 0 <= k < v@.len() ==> within_split(#[trigger] v@[k], area, vertical),
{
    let dir = if vertical { Direction::Vertical } else { Direction::Horizontal };
    let cs: Vec<Constraint> = constraints.iter().map(|c| match *c {
        SplitConstraint::Min(n) => Constraint::Min(n),
        SplitConstraint::Length(n) => Constraint::Length(n),
        SplitConstraint::Percentage(n) => Constraint::Percentage(n),
    }).collect();
    let r = ratatui::layout::Rect { x: area.x, y: area.y, width: area.width, height: area.height };
    Layout::default().direction(dir).constraints(cs).split(r).iter()
        .map(|q| Rect { x: q.x, y: q.y, width: q.width, height: q.height }).collect()
}

/// Where each part of a single-host frame is drawn.
#[derive(Debug, Clone, Copy, PartialEq, Eq, Structural)]
pub struct ScreenAreas {
    pub main: Rect,
    pub status: Rect,
    pub sidebar: Option<Rect>,
    /// The item list, the user strategy view or the full-screen detail.
    pub list: Rect,
    pub containerfile: Option<Rect>,
    pub info_bar: Option<Rect>,
}

/// The parts of a single-host frame, from the splits made: `rows` is the
/// frame split into the main area and the status bar, `cols` the main
/// area split into its two panes (list and Containerfile preview, or
/// sidebar and list), and `list_rows` the list pane split into the list
/// and the info bar when the info bar is open.
pub open spec fn screen_areas_spec(panes: MainPanes, rows: (Rect, Rect), cols: (Rect, Rect), list_rows: (Rect, Rect)) -> ScreenAreas {
    match panes {
        MainPanes::ListAndContainerfile =>
            ScreenAreas { main: rows.0, status: rows.1, sidebar: None, list: cols.0, containerfile: Some(cols.1), info_bar: None },
        _ => if panes == (MainPanes::SidebarAndList { info_bar: true }) {
            ScreenAreas { main: rows.0, status: rows.1, sidebar: Some(cols.0), list: list_rows.0, containerfile: None, info_bar: Some(list_rows.1) }
        } else {
            ScreenAreas { main: rows.0, status: rows.1, sidebar: Some(cols.0), list: cols.1, containerfile: None, info_bar: None }
        },
    }
}

/// Assemble the parts of a frame from the splits made for it.
pub fn areas_from_splits(panes: MainPanes, rows: (Rect, Rect), cols: (Rect, Rect), list_rows: (Rect, Rect)) -> (a: ScreenAreas)
    ensures
        a == screen_areas_spec(panes, rows, cols, list_rows),
{
    match panes {
        MainPanes::ListAndContainerfile =>
            ScreenAreas { main: rows.0, status: rows.1, sidebar: None, list: cols.0, containerfile: Some(cols.1), info_bar: None },
        _ => if panes == (MainPanes::SidebarAndList { info_bar: true }) {
            ScreenAreas { main: rows.0, status: rows.1, sidebar: Some(cols.0), list: list_rows.0, containerfile: None, info_bar: Some(list_rows.1) }
        } else {
            ScreenAreas { main: rows.0, status: rows.1, sidebar: Some(cols.0), list: cols.1, containerfile: None, info_bar: None }
        },
    }
}

/// The constraints of the frame's split into the main area and the
/// status bar: at least three rows, then one.
pub open spec fn frame_constraints() -> Seq<SplitConstraint> {
    seq![SplitConstraint::Min(3), SplitConstraint::Length(1)]
}

/// The constraints of the main area's split into its two panes: equal
/// halves for the list and the Containerfile preview; otherwise the
/// sidebar's width and at least twenty columns for the list.
pub open spec fn pane_constraints(panes: MainPanes) -> Seq<SplitConstraint> {
    if panes == MainPanes::ListAndContainerfile {
        seq![SplitConstraint::Percentage(50), SplitConstraint::Percentage(50)]
    } else {
        seq![SplitConstraint::Length(SIDEBAR_WIDTH), SplitConstraint::Min(20)]
    }
}

/// The constraints of the list pane's split when the info bar is open: at
/// least five rows for the list, four for the bar.
pub open spec fn info_bar_constraints() -> Seq<SplitConstraint> {
    seq![SplitConstraint::Min(5), SplitConstraint::Length(4)]
}

/// The frame's parts are the solver's answers to the screen's splits: the
/// frame cut into main area and status bar, the main area cut into its
/// panes, and, with the info bar open, the list pane cut into the list and
/// the bar; each part lies within what was cut.
pub open spec fn frame_split_ok(area: Rect, panes: MainPanes, a: ScreenAreas) -> bool {
    &&& layout_outcome(area, true, frame_constraints(), seq![a.main, a.status])
    &&& within_split(a.main, area, true)
    &&& within_split(a.status, area, true)
    &&& if panes == MainPanes::ListAndContainerfile {
        &&& a.sidebar is None
        &&& a.info_bar is None
        &&& a.containerfile matches Some(c)
        &&& layout_outcome(a.main, false, pane_constraints(panes), seq![a.list, c])
        &&& within_split(a.list, a.main, false)
        &&& within_split(c, a.main, false)
    } else if panes == (MainPanes::SidebarAndList { info_bar: true }) {
        &&& a.containerfile is None
        &&& a.sidebar matches Some(sb)
        &&& a.info_bar matches Some(ib)
        &&& within_split(sb, a.main, false)
        &&& exists|col: Rect| {
            &&& layout_outcome(a.main, false, pane_constraints(panes), seq![sb, col])
            &&& #[trigger] within_split(col, a.main, false)
            &&& layout_outcome(col, true, info_bar_constraints(), seq![a.list, ib])
            &&& within_split(a.list, col, true)
            &&& within_split(ib, col, true)
        }
    } else {
        &&& a.containerfile is None
        &&& a.info_bar is None
        &&& a.sidebar matches Some(sb)
        &&& layout_outcome(a.main, false, pane_constraints(panes), seq![sb, a.list])
        &&& within_split(sb, a.main, false)
        &&& within_split(a.list, a.main, false)
    }
}

fn split_two(area: Rect, vertical: bool, a: SplitConstraint, b: SplitConstraint) -> (r: (Rect, Rect))
    ensures
        layout_outcome(area, vertical, seq![a, b], seq![r.0, r.1]),
        within_split(r.0, area, vertical),
        within_split(r.1, area, vertical),
{
    let cs = vec![a, b];
    assert(cs@ == seq![a, b]);
    let v = split_area(area, vertical, &cs);
    assert(v@ == seq![v@[0], v@[1]]);
    (v[0], v[1])
}

/// Split a frame's area as the single-host screen draws it: a main area
/// of at least three rows over a one-row status bar; in the main area
/// either the list and the Containerfile preview in equal halves, or the
/// sidebar (`SIDEBAR_WIDTH` columns) and the list (at least twenty), with
/// a four-row info bar under a list of at least five rows when it is
/// open. Where each part lands is the layout solver's answer to those
/// splits.
pub fn screen_areas(area: Rect, panes: MainPanes) -> (a: ScreenAreas)
    ensures
        frame_split_ok(area, panes, a),
        exists|rows: (Rect, Rect), cols: (Rect, Rect), list_rows: (Rect, Rect)| a == #[trigger] screen_areas_spec(panes, rows, cols, list_rows),
{
    let rows = split_two(area, true, SplitConstraint::Min(3), SplitConstraint::Length(1));
    let cols = if panes == MainPanes::ListAndContainerfile {
        split_two(rows.0, false, SplitConstraint::Percentage(50), SplitConstraint::Percentage(50))
    } else {
        split_two(rows.0, false, SplitConstraint::Length(SIDEBAR_WIDTH), SplitConstraint::Min(20))
    };
    let list_rows = if panes == (MainPanes::SidebarAndList { info_bar: true }) {
        split_two(cols.1, true, SplitConstraint::Min(5), SplitConstraint::Length(4))
    } else {
        cols
    };
    let a = areas_from_splits(panes, rows, cols, list_rows);
    proof {
        if panes == (MainPanes::SidebarAndList { info_bar: true }) {
            assert(layout_outcome(a.main, false, pane_constraints(panes), seq![cols.0, cols.1]));
            assert(within_split(cols.1, a.main, false));
        }
    }
    a
}

/// Counting a section's viewed keys adds up over joined lists, one for
/// each key that starts with the prefix.
pub proof fn law_count_prefixed_adds(a: Seq<Seq<char>>, b: Seq<Seq<char>>, p: Seq<char>)
    ensures
        count_prefixed(a + b, p) == count_prefixed(a, p) + count_prefixed(b, p),
        forall|k: Seq<char>| #[trigger] count_prefixed(seq![k], p) == if starts_with(k, p) { 1nat } else { 0nat },
    decreases b.len(),
{
    assert forall|k: Seq<char>| #[trigger] count_prefixed(seq![k], p) == if starts_with(k, p) { 1nat } else { 0nat } by {
        assert(seq![k].drop_last() =~= Seq::<Seq<char>>::empty());
        assert(count_prefixed(Seq::<Seq<char>>::empty(), p) == 0);
        assert(seq![k].last() == k);
        assert(count_prefixed(seq![k], p) == count_prefixed(seq![k].drop_last(), p) + (if starts_with(k, p) { 1nat } else { 0nat }));
    }
    if b.len() == 0 {
        assert(a + b =~= a);
    } else {
        law_count_prefixed_adds(a, b.drop_last(), p);
        assert((a + b).drop_last() =~= a + b.drop_last());
        assert((a + b).last() == b.last());
    }
}

/// Counting item rows adds up over joined lists, one for each row that is
/// not a group header.
pub proof fn law_count_item_rows_adds(a: Seq<ListItem>, b: Seq<ListItem>)
    ensures
        count_item_rows(a + b) == count_item_rows(a) + count_item_rows(b),
        forall|x: ListItem| #[trigger] count_item_rows(seq![x]) == if x.is_group_header { 0nat } else { 1nat },
    decreases b.len(),
{
    assert forall|x: ListItem| #[trigger] count_item_rows(seq![x]) == if x.is_group_header { 0nat } else { 1nat } by {
        assert(seq![x].drop_last() =~= Seq::<ListItem>::empty());
        assert(count_item_rows(Seq::<ListItem>::empty()) == 0);
        assert(seq![x].last() == x);
        assert(count_item_rows(seq![x]) == count_item_rows(seq![x].drop_last()) + (if x.is_group_header { 0nat } else { 1nat }));
    }
    if b.len() == 0 {
        assert(a + b =~= a);
    } else {
        law_count_item_rows_adds(a, b.drop_last());
        assert((a + b).drop_last() =~= a + b.drop_last());
        assert((a + b).last() == b.last());
    }
}

} // verus!
