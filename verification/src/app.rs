//! The terminal UI's decisions: how each action changes the UI state, and
//! what the session must then do. The front end reads the session into a
//! [`SessionView`], calls [`App::handle_action`], performs the returned
//! [`Effect`] on the session, and reports back.

use vstd::prelude::*;

use crate::action::Action;
use crate::sections::{section_index_of, section_order_spec};
use crate::text::{decimal, ends_with, starts_with, trim_spec};
use crate::tui_state::{list_item_view, list_view, ListItem, ListItemView, TuiState};
use crate::tui_types::{
    bucket_index, viewed_key, viewed_prefix_of, section_label, DetailMode, FocusTarget, InputMode, ItemId, SectionId,
};
use crate::widget::search::{hits_view, lowercase, SearchResult};

verus! {

/// What the UI logic reads from the session when an action arrives.
pub struct SessionView {
    /// The rows of the active section's item list, as shown.
    pub items: Vec<ListItem>,
    /// The user names of the Users section, in display order.
    pub users: Vec<String>,
    /// The clock, in milliseconds, for flash messages.
    pub now_ms: u64,
    /// The session holds sensitive data (export asks first).
    pub is_sensitive: bool,
    /// File name of the input tarball, when the session came from one.
    pub tarball_name: Option<String>,
    pub ops_applied: usize,
    pub can_undo: bool,
    pub can_redo: bool,
    pub needs_review: usize,
}

/// What the front end must do on the session after an action.
#[derive(Debug, Clone)]
pub enum Effect {
    Nothing,
    /// Include or exclude an item.
    SetIncluded { item_id: ItemId, included: bool },
    /// Cycle the Containerfile strategy of a user.
    CycleUserStrategy { username: String },
    /// Cycle the password choice of a user.
    CycleUserPassword { username: String },
    /// Record that an item was looked at.
    MarkViewed { viewed_id: String },
    Undo,
    Redo,
    /// Run the search for `query` and hand the results back.
    Search { query: String },
    /// Place the cursor on the result `name` in `section`'s list.
    JumpToResult { section: SectionId, name: String },
    /// Export the session to `path`.
    Export { path: String },
    /// Reload the session from its tarball.
    Fresh,
}

/// The abstract value of an effect.
pub enum EffectView {
    Nothing,
    SetIncluded { item_id: ItemId, included: bool },
    CycleUserStrategy { username: Seq<char> },
    CycleUserPassword { username: Seq<char> },
    MarkViewed { viewed_id: Seq<char> },
    Undo,
    Redo,
    Search { query: Seq<char> },
    JumpToResult { section: SectionId, name: Seq<char> },
    Export { path: Seq<char> },
    Fresh,
}

pub open spec fn effect_view(e: Effect) -> EffectView {
    match e {
        Effect::Nothing => EffectView::Nothing,
        Effect::SetIncluded { item_id, included } => EffectView::SetIncluded { item_id, included },
        Effect::CycleUserStrategy { username } => EffectView::CycleUserStrategy { username: username@ },
        Effect::CycleUserPassword { username } => EffectView::CycleUserPassword { username: username@ },
        Effect::MarkViewed { viewed_id } => EffectView::MarkViewed { viewed_id: viewed_id@ },
        Effect::Undo => EffectView::Undo,
        Effect::Redo => EffectView::Redo,
        Effect::Search { query } => EffectView::Search { query: query@ },
        Effect::JumpToResult { section, name } => EffectView::JumpToResult { section, name: name@ },
        Effect::Export { path } => EffectView::Export { path: path@ },
        Effect::Fresh => EffectView::Fresh,
    }
}

/// The terminal UI: its state plus what it keeps between actions.
pub struct App {
    pub state: TuiState,
    pub should_quit: bool,
    /// Export path waiting for confirmation.
    pub pending_export_path: Option<String>,
    /// Current search results.
    pub search_results: Vec<SearchResult>,
    /// Selected index in the search results.
    pub search_selected: usize,
}

/// The abstract state of the UI.
#[verifier::ext_equal]
pub struct AppModel {
    pub active_section: usize,
    pub cursor: usize,
    pub section_cursors: Seq<usize>,
    pub focus: FocusTarget,
    pub detail_mode: DetailMode,
    pub detail_scroll: u16,
    pub input_mode: InputMode,
    pub search_query: Seq<char>,
    pub command_input: Seq<char>,
    pub collapsed: Set<(usize, usize)>,
    pub show_containerfile: bool,
    /// Text, time shown and time to live of the flash message.
    pub flash: Option<(Seq<char>, u64, u64)>,
    pub should_quit: bool,
    pub pending_export: Option<Seq<char>>,
    pub results: Seq<(SectionId, Seq<char>, Seq<char>)>,
    pub selected: usize,
}

impl App {
    pub open spec fn model(&self) -> AppModel {
        AppModel {
            active_section: self.state.active_section,
            cursor: self.state.cursor,
            section_cursors: self.state.section_cursors@,
            focus: self.state.focus,
            detail_mode: self.state.detail_mode,
            detail_scroll: self.state.detail_scroll,
            input_mode: self.state.input_mode,
            search_query: self.state.search_query@,
            command_input: self.state.command_input@,
            collapsed: self.state.collapsed_groups@,
            show_containerfile: self.state.show_containerfile,
            flash: match self.state.flash {
                Some(f) => Some((f.text@, f.shown_at_ms, f.ttl_secs)),
                None => None,
            },
            should_quit: self.should_quit,
            pending_export: match self.pending_export_path {
                Some(p) => Some(p@),
                None => None,
            },
            results: hits_view(self.search_results@),
            selected: self.search_selected,
        }
    }

    /// Well-formedness: one remembered cursor per section (fourteen), the
    /// active section among them, and the collapsed set without repeats.
    pub open spec fn wf(&self) -> bool {
        &&& self.state.section_cursors@.len() == 14
        &&& self.state.active_section < 14
        &&& self.state.collapsed_groups.wf()
    }
}

/// The model of a well-formed UI.
pub open spec fn model_wf(m: AppModel) -> bool {
    m.section_cursors.len() == 14 && m.active_section < 14
}

// ---- the transition relation ----

pub open spec fn sat_dec(x: usize) -> usize {
    if x > 0 { (x - 1) as usize } else { 0 }
}

pub open spec fn with_flash(m: AppModel, text: Seq<char>, ttl: u64, now: u64) -> AppModel {
    AppModel { flash: Some((text, now, ttl)), ..m }
}

/// Remember the cursor of the active section and switch to section `idx`,
/// restoring the cursor remembered there.
pub open spec fn switch_section(m: AppModel, idx: usize) -> AppModel {
    let sc = m.section_cursors.update(m.active_section as int, m.cursor);
    AppModel { section_cursors: sc, active_section: idx, cursor: sc[idx as int], ..m }
}

/// First group header at or after `i`.
pub open spec fn next_header(items: Seq<ListItemView>, i: int) -> Option<int>
    decreases items.len() - i,
{
    if i < 0 || i >= items.len() {
        None
    } else if items[i].is_group_header {
        Some(i)
    } else {
        next_header(items, i + 1)
    }
}

/// Last group header before `i`.
pub open spec fn prev_header(items: Seq<ListItemView>, i: int) -> Option<int>
    decreases i,
{
    if i <= 0 {
        None
    } else if i - 1 < items.len() && items[i - 1].is_group_header {
        Some(i - 1)
    } else {
        prev_header(items, i - 1)
    }
}

pub open spec fn cursor_down(m: AppModel, v: SessionView) -> AppModel {
    let n = v.items@.len();
    match m.focus {
        FocusTarget::Sidebar => if m.active_section + 1 < 14 { switch_section(m, (m.active_section + 1) as usize) } else { m },
        FocusTarget::DetailPane if m.detail_mode == DetailMode::Fullscreen => AppModel {
            detail_scroll: if m.detail_scroll < u16::MAX { (m.detail_scroll + 1) as u16 } else { m.detail_scroll },
            ..m
        },
        _ => if m.cursor + 1 < n { AppModel { cursor: (m.cursor + 1) as usize, ..m } } else { m },
    }
}

pub open spec fn cursor_up(m: AppModel) -> AppModel {
    match m.focus {
        FocusTarget::Sidebar => if m.active_section > 0 { switch_section(m, (m.active_section - 1) as usize) } else { m },
        FocusTarget::DetailPane if m.detail_mode == DetailMode::Fullscreen => AppModel {
            detail_scroll: if m.detail_scroll > 0 { (m.detail_scroll - 1) as u16 } else { 0 },
            ..m
        },
        _ => AppModel { cursor: sat_dec(m.cursor), ..m },
    }
}

pub open spec fn cycle_focus(m: AppModel) -> FocusTarget {
    match m.focus {
        FocusTarget::Sidebar => FocusTarget::ItemList,
        FocusTarget::ItemList => if m.detail_mode != DetailMode::Closed { FocusTarget::DetailPane } else { FocusTarget::Sidebar },
        FocusTarget::DetailPane => FocusTarget::Sidebar,
    }
}

/// Collapse an expanded group, expand a collapsed one.
pub open spec fn toggle_key(s: Set<(usize, usize)>, k: (usize, usize)) -> Set<(usize, usize)> {
    if s.contains(k) { s.remove(k) } else { s.insert(k) }
}

/// The key under which the item at the cursor is marked viewed, when the
/// section tracks views and the item has a non-empty key.
pub open spec fn viewed_id(sid: SectionId, it: ListItemView) -> Option<Seq<char>> {
    match (it.item_id, viewed_prefix_of(sid)) {
        (Some(id), Some(p)) => if viewed_key(id).len() > 0 { Some(p + ":"@ + viewed_key(id)) } else { None },
        _ => None,
    }
}

pub open spec fn open_detail(m: AppModel, v: SessionView) -> (AppModel, EffectView) {
    let sid = section_order_spec()[m.active_section as int];
    let items = list_view(v.items@);
    if sid == SectionId::Users {
        if m.cursor < v.users@.len() {
            (m, EffectView::CycleUserPassword { username: v.users@[m.cursor as int]@ })
        } else {
            (m, EffectView::Nothing)
        }
    } else if m.cursor < items.len() {
        let it = items[m.cursor as int];
        let m1 = if it.is_group_header {
            AppModel { collapsed: toggle_key(m.collapsed, (m.active_section, bucket_index(it.group))), ..m }
        } else if it.has_content {
            AppModel { detail_mode: DetailMode::Fullscreen, detail_scroll: 0, ..m }
        } else {
            AppModel { detail_mode: DetailMode::InfoBar, ..m }
        };
        (m1, match viewed_id(sid, it) {
            Some(k) => EffectView::MarkViewed { viewed_id: k },
            None => EffectView::Nothing,
        })
    } else {
        (m, EffectView::Nothing)
    }
}

pub open spec fn toggle_item(m: AppModel, v: SessionView) -> (AppModel, EffectView) {
    let sid = section_order_spec()[m.active_section as int];
    let items = list_view(v.items@);
    if sid == SectionId::Users {
        if m.cursor < v.users@.len() {
            (m, EffectView::CycleUserStrategy { username: v.users@[m.cursor as int]@ })
        } else {
            (m, EffectView::Nothing)
        }
    } else if m.cursor < items.len() {
        let it = items[m.cursor as int];
        if it.locked {
            let reason = match it.lock_reason {
                Some(r) => r,
                None => "item is locked"@,
            };
            (with_flash(m, "Locked: "@ + reason, 3, v.now_ms), EffectView::Nothing)
        } else {
            match it.item_id {
                Some(id) => (m, EffectView::SetIncluded {
                    item_id: id,
                    included: !(match it.included { Some(b) => b, None => true }),
                }),
                None => (m, EffectView::Nothing),
            }
        }
    } else {
        (m, EffectView::Nothing)
    }
}

pub open spec fn submit_search(m: AppModel) -> (AppModel, EffectView) {
    let (m1, eff) = if m.selected < m.results.len() {
        let r = m.results[m.selected as int];
        let sc = m.section_cursors.update(m.active_section as int, m.cursor);
        (AppModel { section_cursors: sc, active_section: section_index_of(r.0), focus: FocusTarget::ItemList, cursor: 0, ..m },
            EffectView::JumpToResult { section: r.0, name: r.1 })
    } else {
        (m, EffectView::Nothing)
    };
    (AppModel { input_mode: InputMode::Normal, search_query: Seq::empty(), results: Seq::empty(), ..m1 }, eff)
}

/// The command line split into command and arguments: leading and
/// trailing whitespace dropped, the command up to the first space, the
/// arguments after it; nothing for a blank line.
pub open spec fn parse_command_spec(input: Seq<char>) -> Option<(Seq<char>, Seq<char>)> {
    let t = trim_spec(input);
    if t.len() == 0 {
        None
    } else {
        match first_space(t, 0) {
            Some(i) => Some((t.take(i), t.skip(i + 1))),
            None => Some((t, Seq::empty())),
        }
    }
}

/// Position of the first space at or after `i`.
pub open spec fn first_space(s: Seq<char>, i: int) -> Option<int>
    decreases s.len() - i,
{
    if i < 0 || i >= s.len() {
        None
    } else if s[i] == ' ' {
        Some(i)
    } else {
        first_space(s, i + 1)
    }
}

/// The tarball name without its `.tar.gz` or `.tgz` extension.
pub open spec fn tarball_base(name: Seq<char>) -> Seq<char> {
    if ends_with(name, ".tar.gz"@) {
        name.take(name.len() - 7)
    } else if ends_with(name, ".tgz"@) {
        name.take(name.len() - 4)
    } else {
        name
    }
}

/// Where `:export` writes: the trimmed argument, or by default
/// `./{tarball base}-refined.tar.gz`, or `./inspectah-refined.tar.gz`
/// without a tarball.
pub open spec fn export_path(args: Seq<char>, tarball: Option<Seq<char>>) -> Seq<char> {
    let a = trim_spec(args);
    if a.len() > 0 {
        a
    } else {
        match tarball {
            Some(n) => "./"@ + tarball_base(n) + "-refined.tar.gz"@,
            None => "./inspectah-refined.tar.gz"@,
        }
    }
}

/// First section whose lowercased label starts with `target`.
pub open spec fn section_match_from(target: Seq<char>, k: int) -> Option<usize>
    decreases 14 - k,
{
    if k < 0 || k >= 14 {
        None
    } else if starts_with(lowercase(section_label(section_order_spec()[k])), target) {
        Some(k as usize)
    } else {
        section_match_from(target, k + 1)
    }
}

pub open spec fn yes_no(b: bool) -> Seq<char> {
    if b { "yes"@ } else { "no"@ }
}

pub open spec fn stats_text(v: SessionView) -> Seq<char> {
    "ops: "@ + decimal(v.ops_applied as nat) + " | undo: "@ + yes_no(v.can_undo) + " | redo: "@ + yes_no(v.can_redo)
        + " | review: "@ + decimal(v.needs_review as nat)
}

pub open spec fn opt_chars(o: Option<String>) -> Option<Seq<char>> {
    match o {
        Some(s) => Some(s@),
        None => None,
    }
}

/// What a submitted command line does.
pub open spec fn run_command(m: AppModel, input: Seq<char>, v: SessionView) -> (AppModel, EffectView) {
    match parse_command_spec(input) {
        None => (m, EffectView::Nothing),
        Some((cmd, args)) => {
            if cmd == "export"@ || cmd == "save"@ {
                let path = export_path(args, opt_chars(v.tarball_name));
                if v.is_sensitive {
                    (AppModel { pending_export: Some(path), input_mode: InputMode::Confirm, ..m }, EffectView::Nothing)
                } else {
                    (m, EffectView::Export { path })
                }
            } else if cmd == "search"@ {
                (AppModel { input_mode: InputMode::Search, search_query: args, selected: 0, ..m }, EffectView::Search { query: args })
            } else if cmd == "section"@ {
                let target = lowercase(trim_spec(args));
                if target.len() == 0 {
                    (with_flash(m, "Usage: :section <name>"@, 3, v.now_ms), EffectView::Nothing)
                } else {
                    match section_match_from(target, 0) {
                        Some(idx) => (AppModel { focus: FocusTarget::ItemList, ..switch_section(m, idx) }, EffectView::Nothing),
                        None => (with_flash(m, "Unknown section: "@ + trim_spec(args), 3, v.now_ms), EffectView::Nothing),
                    }
                }
            } else if cmd == "stats"@ {
                (with_flash(m, stats_text(v), 5, v.now_ms), EffectView::Nothing)
            } else if cmd == "undo"@ {
                (m, EffectView::Undo)
            } else if cmd == "redo"@ {
                (m, EffectView::Redo)
            } else if cmd == "fresh"@ {
                if v.tarball_name is Some {
                    (m, EffectView::Fresh)
                } else {
                    (with_flash(m, "No tarball path -- cannot reload"@, 3, v.now_ms), EffectView::Nothing)
                }
            } else if cmd == "quit"@ {
                (AppModel { should_quit: true, ..m }, EffectView::Nothing)
            } else {
                (with_flash(m, "Unknown command: "@ + cmd, 3, v.now_ms), EffectView::Nothing)
            }
        },
    }
}

pub open spec fn submit_command(m: AppModel, v: SessionView) -> (AppModel, EffectView) {
    let (m1, eff) = run_command(m, m.command_input, v);
    (AppModel {
        input_mode: if m1.input_mode == InputMode::Command { InputMode::Normal } else { m1.input_mode },
        command_input: Seq::empty(),
        ..m1
    }, eff)
}

/// How the UI responds to an action: the next state and the effect the
/// session must carry out.
pub open spec fn step(m: AppModel, a: Action, v: SessionView) -> (AppModel, EffectView) {
    let n = v.items@.len();
    let items = list_view(v.items@);
    let none = EffectView::Nothing;
    match a {
        Action::Quit => (AppModel { should_quit: true, ..m }, none),
        Action::CursorDown => if m.input_mode == InputMode::Search && m.results.len() > 0 {
            (AppModel { selected: if m.selected + 1 < m.results.len() { (m.selected + 1) as usize } else { (m.results.len() - 1) as usize }, ..m }, none)
        } else {
            (cursor_down(m, v), none)
        },
        Action::CursorUp => if m.input_mode == InputMode::Search {
            (AppModel { selected: sat_dec(m.selected), ..m }, none)
        } else {
            (cursor_up(m), none)
        },
        Action::CursorTop => (AppModel { cursor: 0, ..m }, none),
        Action::CursorBottom => (AppModel { cursor: if n > 0 { (n - 1) as usize } else { 0 }, ..m }, none),
        Action::FocusSidebar => (AppModel { focus: FocusTarget::Sidebar, ..m }, none),
        Action::FocusItems => (AppModel { focus: FocusTarget::ItemList, ..m }, none),
        Action::CycleFocus => (AppModel { focus: cycle_focus(m), ..m }, none),
        Action::JumpToSection(idx) => if idx < 14 {
            (AppModel { focus: FocusTarget::ItemList, ..switch_section(m, idx) }, none)
        } else {
            (m, none)
        },
        Action::NextGroup => (match next_header(items, m.cursor + 1) {
            Some(i) => AppModel { cursor: i as usize, ..m },
            None => m,
        }, none),
        Action::PrevGroup => (match prev_header(items, m.cursor as int) {
            Some(i) => AppModel { cursor: i as usize, ..m },
            None => m,
        }, none),
        Action::OpenDetail => open_detail(m, v),
        Action::PromoteDetail => if m.detail_mode == DetailMode::InfoBar {
            (AppModel { detail_mode: DetailMode::Fullscreen, detail_scroll: 0, ..m }, none)
        } else {
            (m, none)
        },
        Action::DetailNext => if m.detail_mode != DetailMode::Closed && m.cursor + 1 < n {
            (AppModel { cursor: (m.cursor + 1) as usize, detail_scroll: 0, ..m }, none)
        } else {
            (m, none)
        },
        Action::DetailPrev => if m.detail_mode != DetailMode::Closed && m.cursor > 0 {
            (AppModel { cursor: (m.cursor - 1) as usize, detail_scroll: 0, ..m }, none)
        } else {
            (m, none)
        },
        Action::CloseDetail => if m.input_mode == InputMode::Help {
            (AppModel { input_mode: InputMode::Normal, ..m }, none)
        } else if m.detail_mode != DetailMode::Closed {
            (AppModel {
                detail_mode: DetailMode::Closed,
                detail_scroll: 0,
                focus: if m.focus == FocusTarget::DetailPane { FocusTarget::ItemList } else { m.focus },
                ..m
            }, none)
        } else {
            (m, none)
        },
        Action::ShowHelp => (AppModel {
            input_mode: if m.input_mode == InputMode::Help { InputMode::Normal } else { InputMode::Help },
            ..m
        }, none),
        Action::EnterSearch => (AppModel { input_mode: InputMode::Search, search_query: Seq::empty(), results: Seq::empty(), selected: 0, ..m }, none),
        Action::InputChar(c) => if m.input_mode == InputMode::Search {
            (AppModel { search_query: m.search_query.push(c), selected: 0, ..m }, EffectView::Search { query: m.search_query.push(c) })
        } else if m.input_mode == InputMode::Command {
            (AppModel { command_input: m.command_input.push(c), ..m }, none)
        } else {
            (m, none)
        },
        Action::InputBackspace => if m.input_mode == InputMode::Search {
            let q = if m.search_query.len() > 0 { m.search_query.drop_last() } else { m.search_query };
            (AppModel { search_query: q, selected: 0, ..m }, EffectView::Search { query: q })
        } else if m.input_mode == InputMode::Command {
            (AppModel { command_input: if m.command_input.len() > 0 { m.command_input.drop_last() } else { m.command_input }, ..m }, none)
        } else {
            (m, none)
        },
        Action::SubmitInput => if m.input_mode == InputMode::Search {
            submit_search(m)
        } else if m.input_mode == InputMode::Command {
            submit_command(m, v)
        } else {
            (m, none)
        },
        Action::CancelInput => if m.input_mode == InputMode::Search {
            (AppModel { input_mode: InputMode::Normal, search_query: Seq::empty(), results: Seq::empty(), ..m }, none)
        } else if m.input_mode == InputMode::Command {
            (AppModel { input_mode: InputMode::Normal, command_input: Seq::empty(), ..m }, none)
        } else {
            (m, none)
        },
        Action::EnterCommand => (AppModel { input_mode: InputMode::Command, command_input: Seq::empty(), ..m }, none),
        Action::ToggleItem => toggle_item(m, v),
        Action::Undo => (m, EffectView::Undo),
        Action::Redo => (m, EffectView::Redo),
        Action::ToggleContainerfile => (AppModel { show_containerfile: !m.show_containerfile, ..m }, none),
        Action::ConfirmYes => if m.input_mode == InputMode::Confirm {
            (AppModel { pending_export: None, input_mode: InputMode::Normal, ..m }, match m.pending_export {
                Some(p) => EffectView::Export { path: p },
                None => none,
            })
        } else {
            (m, none)
        },
        Action::ConfirmNo => if m.input_mode == InputMode::Confirm {
            (with_flash(AppModel { pending_export: None, input_mode: InputMode::Normal, ..m }, "Export cancelled."@, 3, v.now_ms), none)
        } else {
            (m, none)
        },
        _ => (m, none),
    }
}

} // verus!

verus! {

fn chars_string(s: &str) -> (r: String)
    ensures
        r@ == s@,
{
    s.to_owned()
}

impl App {
    /// A fresh UI: the state of [`TuiState::new`] for the fourteen sections,
    /// nothing pending, no search results.
    pub fn new() -> (a: App)
        ensures
            a.wf(),
            !a.should_quit,
            a.pending_export_path is None,
            a.search_results@.len() == 0,
            a.search_selected == 0,
            a.state.active_section == 0,
            a.state.cursor == 0,
            a.state.focus == FocusTarget::ItemList,
            a.state.detail_mode == DetailMode::Closed,
            a.state.input_mode == InputMode::Normal,
            a.state.collapsed_groups@ == crate::tui_state::baseline_collapsed(14),
    {
        App {
            state: TuiState::new(14),
            should_quit: false,
            pending_export_path: None,
            search_results: Vec::new(),
            search_selected: 0,
        }
    }

    fn set_flash(&mut self, text: String, ttl: u64, now: u64)
        requires
            old(self).wf(),
        ensures
            final(self).wf(),
            final(self).model() == with_flash(old(self).model(), text@, ttl, now),
    {
        self.state.flash = Some(crate::widget::status_bar::FlashMessage::new(text, ttl, now));
        assert(self.model() =~= with_flash(old(self).model(), text@, ttl, now));
    }

    fn switch_to(&mut self, idx: usize)
        requires
            old(self).wf(),
            idx < 14,
        ensures
            final(self).wf(),
            final(self).model() == switch_section(old(self).model(), idx),
    {
        let a = self.state.active_section;
        let c = self.state.cursor;
        self.state.section_cursors.set(a, c);
        self.state.active_section = idx;
        self.state.cursor = self.state.section_cursors[idx];
        assert(self.model() =~= switch_section(old(self).model(), idx));
    }

    fn do_cursor_down(&mut self, v: &SessionView)
        requires
            old(self).wf(),
        ensures
            final(self).wf(),
            final(self).model() == cursor_down(old(self).model(), *v),
    {
        match self.state.focus {
            FocusTarget::Sidebar => {
                if self.state.active_section + 1 < 14 {
                    let next = self.state.active_section + 1;
                    self.switch_to(next);
                }
            },
            FocusTarget::DetailPane if self.state.detail_mode == DetailMode::Fullscreen => {
                self.state.detail_scroll = self.state.detail_scroll.saturating_add(1);
            },
            _ => {
                let max = v.items.len().saturating_sub(1);
                if self.state.cursor < max {
                    self.state.cursor = self.state.cursor + 1;
                }
            },
        }
        assert(self.model() =~= cursor_down(old(self).model(), *v));
    }

    fn do_cursor_up(&mut self)
        requires
            old(self).wf(),
        ensures
            final(self).wf(),
            final(self).model() == cursor_up(old(self).model()),
    {
        match self.state.focus {
            FocusTarget::Sidebar => {
                if self.state.active_section > 0 {
                    let prev = self.state.active_section - 1;
                    self.switch_to(prev);
                }
            },
            FocusTarget::DetailPane if self.state.detail_mode == DetailMode::Fullscreen => {
                self.state.detail_scroll = self.state.detail_scroll.saturating_sub(1);
            },
            _ => {
                self.state.cursor = self.state.cursor.saturating_sub(1);
            },
        }
        assert(self.model() =~= cursor_up(old(self).model()));
    }
}

fn find_next_header(items: &Vec<ListItem>, from: usize) -> (r: Option<usize>)
    ensures
        match r {
            Some(i) => next_header(list_view(items@), from as int) == Some(i as int),
            None => next_header(list_view(items@), from as int) is None,
        },
{
    let ghost lv = list_view(items@);
    let mut i = from;
    while i < items.len()
        invariant
            lv == list_view(items@),
            from <= i,
            next_header(lv, from as int) == next_header(lv, i as int),
        decreases items@.len() - i,
    {
        assert(lv[i as int] == list_item_view(items@[i as int]));
        if items[i].is_group_header {
            return Some(i);
        }
        i = i + 1;
    }
    None
}

fn find_prev_header(items: &Vec<ListItem>, before: usize) -> (r: Option<usize>)
    ensures
        match r {
            Some(i) => prev_header(list_view(items@), before as int) == Some(i as int),
            None => prev_header(list_view(items@), before as int) is None,
        },
{
    let ghost lv = list_view(items@);
    let mut i = before;
    while i > 0
        invariant
            lv == list_view(items@),
            i <= before,
            prev_header(lv, before as int) == prev_header(lv, i as int),
        decreases i,
    {
        if i - 1 < items.len() {
            assert(lv[i - 1] == list_item_view(items@[i - 1]));
            if items[i - 1].is_group_header {
                return Some(i - 1);
            }
        }
        i = i - 1;
    }
    None
}

} // verus!

verus! {

/// The first item row (not a header) named `name`, from `i` on.
pub open spec fn first_named(items: Seq<ListItemView>, name: Seq<char>, i: int) -> Option<int>
    decreases items.len() - i,
{
    if i < 0 || i >= items.len() {
        None
    } else if !items[i].is_group_header && items[i].name == name {
        Some(i)
    } else {
        first_named(items, name, i + 1)
    }
}

/// Splits a command line into command and arguments.
pub fn parse_command(input: &str) -> (r: Option<(String, String)>)
    ensures
        match r {
            Some((c, a)) => parse_command_spec(input@) == Some((c@, a@)),
            None => parse_command_spec(input@) is None,
        },
{
    let t = crate::text::trim_str(input);
    let cs = crate::text::chars_of(t.as_str());
    let n = cs.len();
    if n == 0 {
        return None;
    }
    let mut i: usize = 0;
    while i < n && cs[i] != ' '
        invariant
            cs@ == t@,
            n == cs@.len(),
            0 <= i <= n,
            first_space(t@, 0) == first_space(t@, i as int),
        decreases n - i,
    {
        i = i + 1;
    }
    let mut cmd = String::new();
    let mut k: usize = 0;
    while k < i
        invariant
            cs@ == t@,
            i <= n,
            n == cs@.len(),
            0 <= k <= i,
            cmd@ == t@.take(k as int),
        decreases i - k,
    {
        crate::text::push_char(&mut cmd, cs[k]);
        assert(cmd@ =~= t@.take(k + 1));
        k = k + 1;
    }
    let mut args = String::new();
    if i < n {
        let mut j = i + 1;
        while j < n
            invariant
                cs@ == t@,
                i < n,
                n == cs@.len(),
                i + 1 <= j <= n,
                args@ == t@.subrange(i + 1, j as int),
            decreases n - j,
        {
            crate::text::push_char(&mut args, cs[j]);
            assert(args@ =~= t@.subrange(i + 1, j + 1));
            j = j + 1;
        }
        assert(args@ =~= t@.skip(i + 1));
    } else {
        assert(cmd@ =~= t@);
        assert(args@ =~= Seq::<char>::empty());
    }
    Some((cmd, args))
}

/// The position of the first item row named `name`, or the top.
pub fn result_cursor(items: &Vec<ListItem>, name: &str) -> (c: usize)
    ensures
        c == (match first_named(list_view(items@), name@, 0) {
            Some(i) => i as usize,
            None => 0usize,
        }),
{
    let ghost lv = list_view(items@);
    let mut i: usize = 0;
    while i < items.len()
        invariant
            lv == list_view(items@),
            first_named(lv, name@, 0) == first_named(lv, name@, i as int),
        decreases items@.len() - i,
    {
        assert(lv[i as int] == list_item_view(items@[i as int]));
        if !items[i].is_group_header && crate::text::str_eq(items[i].name.as_str(), name) {
            return i;
        }
        i = i + 1;
    }
    0
}

fn export_path_exec(args: &str, tarball: &Option<String>) -> (p: String)
    ensures
        p@ == export_path(args@, opt_chars(*tarball)),
{
    let a = crate::text::trim_str(args);
    let alen = crate::pull_progress::byte_length(a.as_str());
    proof { crate::pull_progress::lemma_byte_len_bounds(a@); }
    if alen > 0 {
        return a;
    }
    match tarball {
        Some(name) => {
            let base = match crate::text::strip_suffix(name.as_str(), ".tar.gz") {
                Some(b) => b,
                None => match crate::text::strip_suffix(name.as_str(), ".tgz") {
                    Some(b) => b,
                    None => chars_string(name.as_str()),
                },
            };
            proof {
                reveal_strlit(".tar.gz");
                reveal_strlit(".tgz");
            }
            assert(base@ == tarball_base(name@));
            let mut p = String::new();
            crate::text::push_str(&mut p, "./");
            crate::text::push_str(&mut p, base.as_str());
            crate::text::push_str(&mut p, "-refined.tar.gz");
            p
        },
        None => chars_string("./inspectah-refined.tar.gz"),
    }
}

fn find_section(target: &str) -> (r: Option<usize>)
    ensures
        r == section_match_from(target@, 0),
        r matches Some(i) ==> i < 14,
{
    let tc = crate::text::chars_of(target);
    let mut k: usize = 0;
    while k < 14
        invariant
            tc@ == target@,
            0 <= k <= 14,
            section_match_from(target@, 0) == section_match_from(target@, k as int),
        decreases 14 - k,
    {
        let label = crate::widget::search::section_at(k).label();
        let lower = crate::widget::search::to_lower(label);
        let lc = crate::text::chars_of(lower.as_str());
        if crate::text::matches_at(&lc, &tc, 0) {
            return Some(k);
        }
        k = k + 1;
    }
    None
}

fn yes_no_str(b: bool) -> (s: &'static str)
    ensures
        s@ == yes_no(b),
{
    if b { "yes" } else { "no" }
}

fn stats_message(v: &SessionView) -> (s: String)
    ensures
        s@ == stats_text(*v),
{
    let mut s = String::new();
    crate::text::push_str(&mut s, "ops: ");
    crate::text::push_decimal(&mut s, v.ops_applied);
    crate::text::push_str(&mut s, " | undo: ");
    crate::text::push_str(&mut s, yes_no_str(v.can_undo));
    crate::text::push_str(&mut s, " | redo: ");
    crate::text::push_str(&mut s, yes_no_str(v.can_redo));
    crate::text::push_str(&mut s, " | review: ");
    crate::text::push_decimal(&mut s, v.needs_review);
    s
}

fn concat(a: &str, b: &str) -> (s: String)
    ensures
        s@ == a@ + b@,
{
    let mut s = chars_string(a);
    crate::text::push_str(&mut s, b);
    s
}

impl App {
    fn do_open_detail(&mut self, v: &SessionView) -> (e: Effect)
        requires
            old(self).wf(),
        ensures
            final(self).wf(),
            (final(self).model(), effect_view(e)) == open_detail(old(self).model(), *v),
    {
        let sid = crate::widget::search::section_at(self.state.active_section);
        let c = self.state.cursor;
        if sid == SectionId::Users {
            if c < v.users.len() {
                return Effect::CycleUserPassword { username: chars_string(v.users[c].as_str()) };
            }
            return Effect::Nothing;
        }
        if c >= v.items.len() {
            return Effect::Nothing;
        }
        let it = &v.items[c];
        assert(list_view(v.items@)[c as int] == list_item_view(*it));
        if it.is_group_header {
            let key = (self.state.active_section, crate::tui_types::group_to_bucket_index(it.group));
            if self.state.collapsed_groups.contains(&key) {
                self.state.collapsed_groups.remove(&key);
            } else {
                self.state.collapsed_groups.insert(key);
            }
        } else if it.has_content {
            self.state.detail_mode = DetailMode::Fullscreen;
            self.state.detail_scroll = 0;
        } else {
            self.state.detail_mode = DetailMode::InfoBar;
        }
        let ghost m1 = self.model();
        assert(m1 =~= open_detail(old(self).model(), *v).0);
        let e = match (&it.item_id, sid.viewed_prefix()) {
            (Some(id), Some(prefix)) => {
                let key = crate::tui_types::item_id_to_viewed_key(id);
                let klen = crate::pull_progress::byte_length(key.as_str());
                proof { crate::pull_progress::lemma_byte_len_bounds(key@); }
                if klen > 0 {
                    let mut vid = chars_string(prefix);
                    crate::text::push_str(&mut vid, ":");
                    crate::text::push_str(&mut vid, key.as_str());
                    Effect::MarkViewed { viewed_id: vid }
                } else {
                    Effect::Nothing
                }
            },
            _ => Effect::Nothing,
        };
        e
    }

    fn do_toggle_item(&mut self, v: &SessionView) -> (e: Effect)
        requires
            old(self).wf(),
        ensures
            final(self).wf(),
            (final(self).model(), effect_view(e)) == toggle_item(old(self).model(), *v),
    {
        let sid = crate::widget::search::section_at(self.state.active_section);
        let c = self.state.cursor;
        if sid == SectionId::Users {
            if c < v.users.len() {
                return Effect::CycleUserStrategy { username: chars_string(v.users[c].as_str()) };
            }
            return Effect::Nothing;
        }
        if c >= v.items.len() {
            return Effect::Nothing;
        }
        let it = &v.items[c];
        assert(list_view(v.items@)[c as int] == list_item_view(*it));
        if it.locked {
            let reason: &str = match &it.lock_reason {
                Some(r) => r.as_str(),
                None => "item is locked",
            };
            let text = concat("Locked: ", reason);
            self.set_flash(text, 3, v.now_ms);
            return Effect::Nothing;
        }
        match &it.item_id {
            Some(id) => {
                let cur = match it.included {
                    Some(b) => b,
                    None => true,
                };
                Effect::SetIncluded { item_id: crate::tui_state::copy_id(id), included: !cur }
            },
            None => Effect::Nothing,
        }
    }

    fn do_submit_search(&mut self) -> (e: Effect)
        requires
            old(self).wf(),
        ensures
            final(self).wf(),
            (final(self).model(), effect_view(e)) == submit_search(old(self).model()),
    {
        let mut e = Effect::Nothing;
        let sel = self.search_selected;
        if sel < self.search_results.len() {
            let sid = self.search_results[sel].section_id;
            let name = chars_string(self.search_results[sel].name.as_str());
            assert(hits_view(self.search_results@)[sel as int] == crate::widget::search::hit_view(self.search_results@[sel as int]));
            let idx = crate::widget::search::section_position(sid);
            let a = self.state.active_section;
            let c = self.state.cursor;
            self.state.section_cursors.set(a, c);
            self.state.active_section = idx;
            self.state.focus = FocusTarget::ItemList;
            self.state.cursor = 0;
            e = Effect::JumpToResult { section: sid, name };
        }
        self.state.input_mode = InputMode::Normal;
        self.state.search_query = String::new();
        self.search_results = Vec::new();
        assert(self.model() =~= submit_search(old(self).model()).0);
        e
    }

    fn execute_command(&mut self, v: &SessionView) -> (e: Effect)
        requires
            old(self).wf(),
        ensures
            final(self).wf(),
            (final(self).model(), effect_view(e)) == run_command(old(self).model(), old(self).model().command_input, *v),
    {
        let input = chars_string(self.state.command_input.as_str());
        let parsed = parse_command(input.as_str());
        let (cmd, args) = match parsed {
            None => {
                return Effect::Nothing;
            },
            Some(p) => p,
        };
        let c = cmd.as_str();
        if crate::text::str_eq(c, "export") || crate::text::str_eq(c, "save") {
            let path = export_path_exec(args.as_str(), &v.tarball_name);
            if v.is_sensitive {
                self.pending_export_path = Some(path);
                self.state.input_mode = InputMode::Confirm;
                assert(self.model() =~= run_command(old(self).model(), old(self).model().command_input, *v).0);
                return Effect::Nothing;
            }
            return Effect::Export { path };
        }
        if crate::text::str_eq(c, "search") {
            self.state.input_mode = InputMode::Search;
            self.state.search_query = chars_string(args.as_str());
            self.search_selected = 0;
            assert(self.model() =~= run_command(old(self).model(), old(self).model().command_input, *v).0);
            return Effect::Search { query: args };
        }
        if crate::text::str_eq(c, "section") {
            let trimmed = crate::text::trim_str(args.as_str());
            let target = crate::widget::search::to_lower(trimmed.as_str());
            let tlen = crate::pull_progress::byte_length(target.as_str());
            proof { crate::pull_progress::lemma_byte_len_bounds(target@); }
            if tlen == 0 {
                self.set_flash(chars_string("Usage: :section <name>"), 3, v.now_ms);
                return Effect::Nothing;
            }
            match find_section(target.as_str()) {
                Some(idx) => {
                    self.switch_to(idx);
                    self.state.focus = FocusTarget::ItemList;
                    assert(self.model() =~= run_command(old(self).model(), old(self).model().command_input, *v).0);
                },
                None => {
                    self.set_flash(concat("Unknown section: ", trimmed.as_str()), 3, v.now_ms);
                },
            }
            return Effect::Nothing;
        }
        if crate::text::str_eq(c, "stats") {
            self.set_flash(stats_message(v), 5, v.now_ms);
            return Effect::Nothing;
        }
        if crate::text::str_eq(c, "undo") {
            return Effect::Undo;
        }
        if crate::text::str_eq(c, "redo") {
            return Effect::Redo;
        }
        if crate::text::str_eq(c, "fresh") {
            if v.tarball_name.is_some() {
                return Effect::Fresh;
            }
            self.set_flash(chars_string("No tarball path -- cannot reload"), 3, v.now_ms);
            return Effect::Nothing;
        }
        if crate::text::str_eq(c, "quit") {
            self.should_quit = true;
            assert(self.model() =~= run_command(old(self).model(), old(self).model().command_input, *v).0);
            return Effect::Nothing;
        }
        self.set_flash(concat("Unknown command: ", c), 3, v.now_ms);
        Effect::Nothing
    }
}

} // verus!

verus! {

/// The flash that reports a failed effect: its text and time to live.
pub open spec fn failure_flash(e: EffectView, msg: Seq<char>) -> Option<(Seq<char>, u64)> {
    match e {
        EffectView::SetIncluded { .. } => Some(("Toggle failed: "@ + msg, 3)),
        EffectView::CycleUserStrategy { .. } => Some(("Strategy toggle: "@ + msg, 3)),
        EffectView::CycleUserPassword { .. } => Some(("Password toggle: "@ + msg, 3)),
        EffectView::Undo => Some(("Undo: "@ + msg, 3)),
        EffectView::Redo => Some(("Redo: "@ + msg, 3)),
        EffectView::Export { .. } => Some(("Export failed: "@ + msg, 5)),
        EffectView::Fresh => Some(("Fresh reload failed: "@ + msg, 5)),
        _ => None,
    }
}

/// The UI after search results arrive.
pub open spec fn with_results(m: AppModel, r: Seq<(SectionId, Seq<char>, Seq<char>)>) -> AppModel {
    AppModel { results: r, selected: 0, ..m }
}

/// The cursor placed by [`App::place_cursor`].
pub open spec fn named_cursor(items: Seq<ListItemView>, name: Seq<char>) -> usize {
    match first_named(items, name, 0) {
        Some(i) => i as usize,
        None => 0usize,
    }
}

pub open spec fn with_cursor(m: AppModel, c: usize) -> AppModel {
    AppModel { cursor: c, ..m }
}

/// The UI after the session refused an effect.
pub open spec fn after_failure(m: AppModel, e: EffectView, msg: Seq<char>, now: u64) -> AppModel {
    match failure_flash(e, msg) {
        Some((text, ttl)) => with_flash(m, text, ttl, now),
        None => m,
    }
}

/// The UI after a clock tick: an expired flash is gone.
pub open spec fn after_tick(m: AppModel, f: Option<crate::widget::status_bar::FlashMessage>, now: u64) -> AppModel {
    match f {
        Some(fl) => if crate::widget::status_bar::flash_expired(fl, now) { AppModel { flash: None, ..m } } else { m },
        None => m,
    }
}

impl App {
    /// Respond to an action: update the UI state as the action calls for,
    /// and return what the session must do.
    pub fn handle_action(&mut self, action: Action, v: &SessionView) -> (e: Effect)
        requires
            old(self).wf(),
        ensures
            final(self).wf(),
            (final(self).model(), effect_view(e)) == step(old(self).model(), action, *v),
    {
        match action {
            Action::Quit | Action::CursorTop | Action::CursorBottom | Action::FocusSidebar | Action::FocusItems
            | Action::CycleFocus | Action::JumpToSection(_) | Action::NextGroup | Action::PrevGroup
            | Action::ShowHelp | Action::ToggleContainerfile | Action::EnterSearch | Action::EnterCommand => {
                self.act_view(action, v);
                Effect::Nothing
            },
            Action::CursorDown => {
                self.act_down(v);
                Effect::Nothing
            },
            Action::CursorUp => {
                self.act_up();
                Effect::Nothing
            },
            Action::PromoteDetail | Action::DetailNext | Action::DetailPrev | Action::CloseDetail => {
                self.act_detail(action, v);
                Effect::Nothing
            },
            Action::OpenDetail => self.do_open_detail(v),
            Action::ToggleItem => self.do_toggle_item(v),
            Action::Undo => Effect::Undo,
            Action::Redo => Effect::Redo,
            Action::InputChar(_) | Action::InputBackspace | Action::CancelInput => self.act_input(action, v),
            Action::SubmitInput => self.act_submit(v),
            Action::ConfirmYes | Action::ConfirmNo => self.act_confirm(action, v),
            _ => Effect::Nothing,
        }
    }

    #[verifier::spinoff_prover]
    fn act_view(&mut self, action: Action, v: &SessionView)
        requires
            old(self).wf(),
            action is Quit || action is CursorTop || action is CursorBottom || action is FocusSidebar
                || action is FocusItems || action is CycleFocus || action is JumpToSection || action is NextGroup
                || action is PrevGroup || action is ShowHelp || action is ToggleContainerfile || action is EnterSearch
                || action is EnterCommand,
        ensures
            final(self).wf(),
            (final(self).model(), EffectView::Nothing) == step(old(self).model(), action, *v),
    {
        let ghost m = self.model();
        match action {
            Action::Quit => {
                self.should_quit = true;
            },
            Action::CursorTop => {
                self.state.cursor = 0;
            },
            Action::CursorBottom => {
                self.state.cursor = v.items.len().saturating_sub(1);
            },
            Action::FocusSidebar => {
                self.state.focus = FocusTarget::Sidebar;
            },
            Action::FocusItems => {
                self.state.focus = FocusTarget::ItemList;
            },
            Action::CycleFocus => {
                self.state.focus = match self.state.focus {
                    FocusTarget::Sidebar => FocusTarget::ItemList,
                    FocusTarget::ItemList => if self.state.detail_mode != DetailMode::Closed {
                        FocusTarget::DetailPane
                    } else {
                        FocusTarget::Sidebar
                    },
                    FocusTarget::DetailPane => FocusTarget::Sidebar,
                };
            },
            Action::JumpToSection(idx) => {
                if idx < 14 {
                    self.switch_to(idx);
                    self.state.focus = FocusTarget::ItemList;
                }
            },
            Action::NextGroup => {
                if self.state.cursor < v.items.len() {
                    if let Some(i) = find_next_header(&v.items, self.state.cursor + 1) {
                        self.state.cursor = i;
                    }
                } else {
                    assert(next_header(list_view(v.items@), m.cursor + 1) is None);
                }
            },
            Action::PrevGroup => {
                if let Some(i) = find_prev_header(&v.items, self.state.cursor) {
                    self.state.cursor = i;
                }
            },
            Action::ShowHelp => {
                self.state.input_mode = if self.state.input_mode == InputMode::Help {
                    InputMode::Normal
                } else {
                    InputMode::Help
                };
            },
            Action::ToggleContainerfile => {
                self.state.show_containerfile = !self.state.show_containerfile;
            },
            Action::EnterSearch => {
                self.state.input_mode = InputMode::Search;
                self.state.search_query = String::new();
                self.search_results = Vec::new();
                self.search_selected = 0;
            },
            _ => {
                self.state.input_mode = InputMode::Command;
                self.state.command_input = String::new();
            },
        }
        assert(self.model() =~= step(m, action, *v).0);
    }

    #[verifier::spinoff_prover]
    fn act_down(&mut self, v: &SessionView)
        requires
            old(self).wf(),
        ensures
            final(self).wf(),
            (final(self).model(), EffectView::Nothing) == step(old(self).model(), Action::CursorDown, *v),
    {
        if self.state.input_mode == InputMode::Search && self.search_results.len() > 0 {
            let last = self.search_results.len() - 1;
            self.search_selected = if self.search_selected < last { self.search_selected + 1 } else { last };
            assert(self.model() =~= step(old(self).model(), Action::CursorDown, *v).0);
        } else {
            self.do_cursor_down(v);
        }
    }

    #[verifier::spinoff_prover]
    fn act_up(&mut self)
        requires
            old(self).wf(),
        ensures
            final(self).wf(),
            forall|v: SessionView| (final(self).model(), EffectView::Nothing) == #[trigger] step(old(self).model(), Action::CursorUp, v),
    {
        if self.state.input_mode == InputMode::Search {
            self.search_selected = self.search_selected.saturating_sub(1);
            assert(self.model() =~= AppModel { selected: sat_dec(old(self).model().selected), ..old(self).model() });
        } else {
            self.do_cursor_up();
        }
    }

    #[verifier::spinoff_prover]
    fn act_detail(&mut self, action: Action, v: &SessionView)
        requires
            old(self).wf(),
            action is PromoteDetail || action is DetailNext || action is DetailPrev || action is CloseDetail,
        ensures
            final(self).wf(),
            (final(self).model(), EffectView::Nothing) == step(old(self).model(), action, *v),
    {
        let ghost m = self.model();
        match action {
            Action::PromoteDetail => {
                if self.state.detail_mode == DetailMode::InfoBar {
                    self.state.detail_mode = DetailMode::Fullscreen;
                    self.state.detail_scroll = 0;
                }
            },
            Action::DetailNext => {
                if self.state.detail_mode != DetailMode::Closed {
                    let max = v.items.len().saturating_sub(1);
                    if self.state.cursor < max {
                        self.state.cursor = self.state.cursor + 1;
                        self.state.detail_scroll = 0;
                    }
                }
            },
            Action::DetailPrev => {
                if self.state.detail_mode != DetailMode::Closed && self.state.cursor > 0 {
                    self.state.cursor = self.state.cursor - 1;
                    self.state.detail_scroll = 0;
                }
            },
            _ => {
                if self.state.input_mode == InputMode::Help {
                    self.state.input_mode = InputMode::Normal;
                } else if self.state.detail_mode != DetailMode::Closed {
                    self.state.detail_mode = DetailMode::Closed;
                    self.state.detail_scroll = 0;
                    if self.state.focus == FocusTarget::DetailPane {
                        self.state.focus = FocusTarget::ItemList;
                    }
                }
            },
        }
        assert(self.model() =~= step(m, action, *v).0);
    }

    #[verifier::spinoff_prover]
    fn act_input(&mut self, action: Action, v: &SessionView) -> (e: Effect)
        requires
            old(self).wf(),
            action is InputChar || action is InputBackspace || action is CancelInput,
        ensures
            final(self).wf(),
            (final(self).model(), effect_view(e)) == step(old(self).model(), action, *v),
    {
        let ghost m = self.model();
        let mut e = Effect::Nothing;
        match action {
            Action::InputChar(ch) => {
                if self.state.input_mode == InputMode::Search {
                    crate::text::push_char(&mut self.state.search_query, ch);
                    self.search_selected = 0;
                    e = Effect::Search { query: chars_string(self.state.search_query.as_str()) };
                } else if self.state.input_mode == InputMode::Command {
                    crate::text::push_char(&mut self.state.command_input, ch);
                }
            },
            Action::InputBackspace => {
                if self.state.input_mode == InputMode::Search {
                    self.state.search_query = crate::text::without_last_char(self.state.search_query.as_str());
                    self.search_selected = 0;
                    e = Effect::Search { query: chars_string(self.state.search_query.as_str()) };
                } else if self.state.input_mode == InputMode::Command {
                    self.state.command_input = crate::text::without_last_char(self.state.command_input.as_str());
                }
            },
            _ => {
                if self.state.input_mode == InputMode::Search {
                    self.state.input_mode = InputMode::Normal;
                    self.state.search_query = String::new();
                    self.search_results = Vec::new();
                } else if self.state.input_mode == InputMode::Command {
                    self.state.input_mode = InputMode::Normal;
                    self.state.command_input = String::new();
                }
            },
        }
        assert(self.model() =~= step(m, action, *v).0);
        e
    }

    #[verifier::spinoff_prover]
    fn act_submit(&mut self, v: &SessionView) -> (e: Effect)
        requires
            old(self).wf(),
        ensures
            final(self).wf(),
            (final(self).model(), effect_view(e)) == step(old(self).model(), Action::SubmitInput, *v),
    {
        let ghost m = self.model();
        if self.state.input_mode == InputMode::Search {
            return self.do_submit_search();
        } else if self.state.input_mode == InputMode::Command {
            let e = self.execute_command(v);
            if self.state.input_mode == InputMode::Command {
                self.state.input_mode = InputMode::Normal;
            }
            self.state.command_input = String::new();
            assert(self.model() =~= step(m, Action::SubmitInput, *v).0);
            return e;
        }
        Effect::Nothing
    }

    #[verifier::spinoff_prover]
    fn act_confirm(&mut self, action: Action, v: &SessionView) -> (e: Effect)
        requires
            old(self).wf(),
            action is ConfirmYes || action is ConfirmNo,
        ensures
            final(self).wf(),
            (final(self).model(), effect_view(e)) == step(old(self).model(), action, *v),
    {
        let ghost m = self.model();
        if self.state.input_mode != InputMode::Confirm {
            return Effect::Nothing;
        }
        match action {
            Action::ConfirmYes => {
                let p = self.pending_export_path.take();
                self.state.input_mode = InputMode::Normal;
                assert(self.model() =~= step(m, action, *v).0);
                match p {
                    Some(path) => Effect::Export { path },
                    None => Effect::Nothing,
                }
            },
            _ => {
                self.pending_export_path = None;
                self.state.input_mode = InputMode::Normal;
                self.set_flash(chars_string("Export cancelled."), 3, v.now_ms);
                Effect::Nothing
            },
        }
    }

    /// Hand back the results of a search.
    pub fn set_search_results(&mut self, results: Vec<SearchResult>)
        requires
            old(self).wf(),
        ensures
            final(self).wf(),
            final(self).model() == with_results(old(self).model(), hits_view(results@)),
    {
        self.search_results = results;
        self.search_selected = 0;
        assert(self.model() =~= with_results(old(self).model(), hits_view(results@)));
    }

    /// After a jump to a search result: put the cursor on the first item
    /// row with the result's name in the target section's list, or at
    /// the top when there is none.
    pub fn place_cursor(&mut self, items: &Vec<ListItem>, name: &str)
        requires
            old(self).wf(),
        ensures
            final(self).wf(),
            final(self).model() == with_cursor(old(self).model(), named_cursor(list_view(items@), name@)),
    {
        self.state.cursor = result_cursor(items, name);
        assert(self.model() =~= with_cursor(old(self).model(), named_cursor(list_view(items@), name@)));
    }

    /// Report that the session refused an effect with `msg`: a flash that
    /// names what failed (nothing for a failed view mark, which is silent).
    pub fn effect_failed(&mut self, e: &Effect, msg: &str, now_ms: u64)
        requires
            old(self).wf(),
        ensures
            final(self).wf(),
            final(self).model() == after_failure(old(self).model(), effect_view(*e), msg@, now_ms),
    {
        let (prefix, ttl): (&str, u64) = match e {
            Effect::SetIncluded { .. } => ("Toggle failed: ", 3),
            Effect::CycleUserStrategy { .. } => ("Strategy toggle: ", 3),
            Effect::CycleUserPassword { .. } => ("Password toggle: ", 3),
            Effect::Undo => ("Undo: ", 3),
            Effect::Redo => ("Redo: ", 3),
            Effect::Export { .. } => ("Export failed: ", 5),
            Effect::Fresh => ("Fresh reload failed: ", 5),
            _ => {
                return;
            },
        };
        self.set_flash(concat(prefix, msg), ttl, now_ms);
    }

    /// Report a finished export to `path`.
    pub fn export_done(&mut self, path: &str, now_ms: u64)
        requires
            old(self).wf(),
        ensures
            final(self).wf(),
            final(self).model() == with_flash(old(self).model(), "Exported: "@ + path@, 5, now_ms),
    {
        self.set_flash(concat("Exported: ", path), 5, now_ms);
    }

    /// Report a reload from the tarball: the UI starts over, with a flash.
    pub fn fresh_done(&mut self, now_ms: u64)
        requires
            old(self).wf(),
        ensures
            final(self).wf(),
            final(self).state.active_section == 0,
            final(self).state.cursor == 0,
            final(self).state.input_mode == InputMode::Normal,
            final(self).state.detail_mode == DetailMode::Closed,
            final(self).state.focus == FocusTarget::ItemList,
            final(self).state.collapsed_groups@ == crate::tui_state::baseline_collapsed(14),
            final(self).model().flash == Some(("Session reset from tarball"@, now_ms, 3u64)),
            final(self).should_quit == old(self).should_quit,
    {
        self.state = TuiState::new(14);
        self.set_flash(chars_string("Session reset from tarball"), 3, now_ms);
    }

    /// A clock tick: drop the flash message once it has expired.
    pub fn tick(&mut self, now_ms: u64)
        requires
            old(self).wf(),
        ensures
            final(self).wf(),
            final(self).model() == after_tick(old(self).model(), old(self).state.flash, now_ms),
    {
        let expired = match &self.state.flash {
            Some(f) => f.is_expired(now_ms),
            None => false,
        };
        if expired {
            self.state.flash = None;
        }
        assert(self.model() =~= after_tick(old(self).model(), old(self).state.flash, now_ms));
    }
}

} // verus!

verus! {

/// Opening the help overlay and closing it again with the same key leaves
/// the UI as it was.
pub proof fn law_help_toggle_round_trip(m: AppModel, v: SessionView)
    requires
        m.input_mode == InputMode::Normal,
    ensures
        step(step(m, Action::ShowHelp, v).0, Action::ShowHelp, v).0 == m,
{
    assert(step(step(m, Action::ShowHelp, v).0, Action::ShowHelp, v).0 =~= m);
}

/// Enter on a group header twice collapses and re-expands it: the UI is
/// back where it was.
pub proof fn law_group_toggle_round_trip(m: AppModel, v: SessionView)
    requires
        model_wf(m),
        section_order_spec()[m.active_section as int] != SectionId::Users,
        m.cursor < v.items@.len(),
        list_view(v.items@)[m.cursor as int].is_group_header,
    ensures
        step(step(m, Action::OpenDetail, v).0, Action::OpenDetail, v).0 == m,
{
    let it = list_view(v.items@)[m.cursor as int];
    let k = (m.active_section, bucket_index(it.group));
    let m1 = step(m, Action::OpenDetail, v).0;
    assert(m1.collapsed == toggle_key(m.collapsed, k));
    if m.collapsed.contains(k) {
        assert(m.collapsed.remove(k).insert(k) =~= m.collapsed);
    } else {
        assert(m.collapsed.insert(k).remove(k) =~= m.collapsed);
    }
    assert(step(m1, Action::OpenDetail, v).0 =~= m);
}

/// Moving down a section in the sidebar and back up returns to the same
/// section with the cursor it had: each section remembers its cursor.
pub proof fn law_section_cursor_remembered(m: AppModel, v: SessionView)
    requires
        model_wf(m),
        m.focus == FocusTarget::Sidebar,
        m.input_mode != InputMode::Search,
        m.active_section + 1 < 14,
    ensures
        step(step(m, Action::CursorDown, v).0, Action::CursorUp, v).0.active_section == m.active_section,
        step(step(m, Action::CursorDown, v).0, Action::CursorUp, v).0.cursor == m.cursor,
{
}

/// Cursor movement keeps the cursor on a row of the list: from a row of a
/// non-empty list, every movement action lands on a row.
pub proof fn law_cursor_stays_in_list(m: AppModel, a: Action, v: SessionView)
    requires
        model_wf(m),
        m.input_mode == InputMode::Normal,
        m.focus == FocusTarget::ItemList,
        m.cursor < v.items@.len(),
        a is CursorDown || a is CursorUp || a is CursorTop || a is CursorBottom || a is NextGroup
            || a is PrevGroup || a is DetailNext || a is DetailPrev,
    ensures
        step(m, a, v).0.cursor < v.items@.len(),
{
    let items = list_view(v.items@);
    if a is NextGroup {
        lemma_next_header_bound(items, m.cursor + 1);
    }
    if a is PrevGroup {
        lemma_prev_header_bound(items, m.cursor as int);
    }
}

proof fn lemma_next_header_bound(items: Seq<ListItemView>, i: int)
    ensures
        next_header(items, i) matches Some(j) ==> i <= j < items.len(),
    decreases items.len() - i,
{
    if 0 <= i < items.len() && !items[i].is_group_header {
        lemma_next_header_bound(items, i + 1);
    }
}

proof fn lemma_prev_header_bound(items: Seq<ListItemView>, i: int)
    ensures
        prev_header(items, i) matches Some(j) ==> 0 <= j < i,
    decreases i,
{
    if i > 0 && !(i - 1 < items.len() && items[i - 1].is_group_header) {
        lemma_prev_header_bound(items, i - 1);
    }
}

/// A locked item is never toggled: Space on it only explains why.
pub proof fn law_locked_items_not_toggled(m: AppModel, v: SessionView)
    requires
        model_wf(m),
        section_order_spec()[m.active_section as int] != SectionId::Users,
        m.cursor < v.items@.len(),
        list_view(v.items@)[m.cursor as int].locked,
    ensures
        step(m, Action::ToggleItem, v).1 is Nothing,
        step(m, Action::ToggleItem, v).0.flash is Some,
{
}

/// Leaving search mode drops the query and the results.
pub proof fn law_cancel_search_clears(m: AppModel, v: SessionView)
    requires
        m.input_mode == InputMode::Search,
    ensures
        step(m, Action::CancelInput, v).0.input_mode == InputMode::Normal,
        step(m, Action::CancelInput, v).0.search_query.len() == 0,
        step(m, Action::CancelInput, v).0.results.len() == 0,
{
}

/// Declining the export confirmation writes nothing and forgets the path.
pub proof fn law_declined_export_forgotten(m: AppModel, v: SessionView)
    requires
        m.input_mode == InputMode::Confirm,
    ensures
        step(m, Action::ConfirmNo, v).1 is Nothing,
        step(m, Action::ConfirmNo, v).0.pending_export is None,
        step(m, Action::ConfirmNo, v).0.input_mode == InputMode::Normal,
{
}

/// An export of a sensitive session is not carried out at once: it waits
/// for confirmation.
pub proof fn law_sensitive_export_asks_first(m: AppModel, v: SessionView)
    requires
        m.input_mode == InputMode::Command,
        parse_command_spec(m.command_input) matches Some((c, _)) && c == "export"@,
        v.is_sensitive,
    ensures
        step(m, Action::SubmitInput, v).1 is Nothing,
        step(m, Action::SubmitInput, v).0.input_mode == InputMode::Confirm,
        step(m, Action::SubmitInput, v).0.pending_export is Some,
{
}

} // verus!
