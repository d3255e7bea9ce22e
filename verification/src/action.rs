//! Everything the terminal UI can be asked to do, as mapped from keys.

use vstd::prelude::*;

verus! {

/// All actions of the terminal UI.
#[derive(Debug, Clone, Copy, PartialEq, Eq, Structural)]
pub enum Action {
    Quit,
    CursorUp,
    CursorDown,
    CursorTop,
    CursorBottom,
    FocusSidebar,
    FocusItems,
    CycleFocus,
    /// Left arrow in the sidebar: collapse the current section's group.
    SidebarLeft,
    /// Right arrow in the sidebar: expand the group or focus the items.
    SidebarRight,
    JumpToSection(usize),
    NextGroup,
    PrevGroup,
    ToggleItem,
    OpenDetail,
    CloseDetail,
    PromoteDetail,
    DetailNext,
    DetailPrev,
    Undo,
    Redo,
    Refresh,
    EnterSearch,
    EnterCommand,
    ShowHelp,
    ToggleContainerfile,
    SubmitInput,
    CancelInput,
    InputChar(char),
    InputBackspace,
    InputDelete,
    InputLeft,
    InputRight,
    InputHome,
    InputEnd,
    /// Tab completion in command mode.
    TabComplete,
    ConfirmYes,
    ConfirmNo,
    /// An unbound key.
    Noop,
}

} // verus!
