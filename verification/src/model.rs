//! The values that the overlay's logic reads from Zellij, held as plain data.

use vstd::prelude::*;

verus! {

/// Zellij's input modes.
#[derive(Clone, Copy, Debug, PartialEq, Eq, Structural)]
pub enum InputMode {
    Normal,
    Locked,
    Resize,
    Pane,
    Tab,
    Scroll,
    EnterSearch,
    Search,
    RenameTab,
    RenamePane,
    Session,
    Move,
    Prompt,
    Tmux,
}

/// A direction on the screen.
#[derive(Clone, Copy, Debug, PartialEq, Eq, Structural)]
pub enum Direction {
    Left,
    Right,
    Up,
    Down,
}

/// Whether a resize grows or shrinks the pane.
#[derive(Clone, Copy, Debug, PartialEq, Eq, Structural)]
pub enum Resize {
    Increase,
    Decrease,
}

/// The direction of a scroll-buffer search.
#[derive(Clone, Copy, Debug, PartialEq, Eq, Structural)]
pub enum SearchDirection {
    Down,
    Up,
}

/// A Zellij action bound to a key, reduced to what its hint reads.
///
/// The plugin variants carry the plugin's location as Zellij displays it; the
/// pipe variants carry the pipe's name and payload; `Other` carries the debug
/// text of any action that has no hint of its own.
#[allow(inconsistent_fields)]
#[derive(Debug, PartialEq, Eq)]
pub enum Action {
    SwitchToMode { input_mode: InputMode },
    SwitchModeForAllClients { input_mode: InputMode },
    SwitchFocus,
    MoveFocus { direction: Direction },
    MoveFocusOrTab { direction: Direction },
    MovePane { direction: Option<Direction> },
    MovePaneBackwards,
    NewPane { direction: Option<Direction> },
    NewTiledPane { direction: Option<Direction> },
    NewFloatingPane,
    NewInPlacePane,
    NewBlockingPane,
    NewStackedPane,
    CloseFocus,
    ToggleFocusFullscreen,
    ToggleFloatingPanes,
    HideFloatingPanes,
    ShowFloatingPanes,
    TogglePaneEmbedOrFloating,
    TogglePanePinned,
    StackPanes,
    TogglePaneInGroup,
    ToggleGroupMarking,
    TogglePaneFrames,
    Resize { resize: Resize, direction: Option<Direction> },
    FocusNextPane,
    FocusPreviousPane,
    NewTab,
    CloseTab,
    GoToNextTab,
    GoToPreviousTab,
    GoToTab { index: u32 },
    ToggleTab,
    ToggleActiveSyncTab,
    MoveTab { direction: Direction },
    BreakPane,
    BreakPaneLeft,
    BreakPaneRight,
    PaneNameInput,
    TabNameInput,
    UndoRenamePane,
    UndoRenameTab,
    ScrollUp,
    ScrollDown,
    ScrollToTop,
    ScrollToBottom,
    PageScrollUp,
    PageScrollDown,
    HalfPageScrollUp,
    HalfPageScrollDown,
    EditScrollback,
    Search { direction: SearchDirection },
    SearchInput,
    SearchToggleOption,
    Detach,
    Quit,
    LaunchOrFocusPlugin { location: String },
    LaunchPlugin { location: String },
    NewFloatingPluginPane { location: String },
    NewTiledPluginPane { location: String },
    NewInPlacePluginPane { location: String },
    StartOrReloadPlugin { location: String },
    KeybindPipe { name: Option<String>, payload: Option<String> },
    CliPipe { name: Option<String>, payload: Option<String> },
    NoOp,
    Other { text: String },
}

} // verus!
