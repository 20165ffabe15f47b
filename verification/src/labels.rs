//! The hint text of modes, directions, resizes, plugins, pipes and actions.

use vstd::prelude::*;
use vstd::string::*;
use crate::model::{Action, Direction, InputMode, Resize, SearchDirection};
use crate::text::{chars_of, decimal, push_char, push_decimal};

verus! {

/// The name shown for an input mode.
pub open spec fn mode_label_spec(mode: InputMode) -> Seq<char> {
    match mode {
        InputMode::Normal => "Normal"@,
        InputMode::Locked => "Locked"@,
        InputMode::Resize => "Resize"@,
        InputMode::Pane => "Pane"@,
        InputMode::Tab => "Tab"@,
        InputMode::Scroll => "Scroll"@,
        InputMode::EnterSearch => "Enter search"@,
        InputMode::Search => "Search"@,
        InputMode::RenameTab => "Rename tab"@,
        InputMode::RenamePane => "Rename pane"@,
        InputMode::Session => "Session"@,
        InputMode::Move => "Move"@,
        InputMode::Prompt => "Prompt"@,
        InputMode::Tmux => "Tmux"@,
    }
}

/// Each input mode is shown by a name of its own, starting with a capital
/// letter: distinct modes have distinct names.
pub proof fn lemma_mode_names_distinct(m1: InputMode, m2: InputMode)
    ensures
        m1 != m2 ==> mode_label_spec(m1) != mode_label_spec(m2),
        mode_label_spec(m1).len() > 1,
        65 <= mode_label_spec(m1)[0] as u32 <= 90,
{
    reveal_strlit("Normal");
    reveal_strlit("Locked");
    reveal_strlit("Resize");
    reveal_strlit("Pane");
    reveal_strlit("Tab");
    reveal_strlit("Scroll");
    reveal_strlit("Enter search");
    reveal_strlit("Search");
    reveal_strlit("Rename tab");
    reveal_strlit("Rename pane");
    reveal_strlit("Session");
    reveal_strlit("Move");
    reveal_strlit("Prompt");
    reveal_strlit("Tmux");
    let a = mode_label_spec(m1);
    let b = mode_label_spec(m2);
    assert(a.len() > 1);
    assert(65 <= a[0] as u32 <= 90);
    if m1 != m2 && a == b {
        assert(a.len() == b.len());
        assert(a[0] == b[0]);
        assert(a[1] == b[1]);
    }
}

/// The name shown for an input mode.
pub fn mode_label(mode: InputMode) -> (label: &'static str)
    ensures
        label@ == mode_label_spec(mode),
{
    match mode {
        InputMode::Normal => "Normal",
        InputMode::Locked => "Locked",
        InputMode::Resize => "Resize",
        InputMode::Pane => "Pane",
        InputMode::Tab => "Tab",
        InputMode::Scroll => "Scroll",
        InputMode::EnterSearch => "Enter search",
        InputMode::Search => "Search",
        InputMode::RenameTab => "Rename tab",
        InputMode::RenamePane => "Rename pane",
        InputMode::Session => "Session",
        InputMode::Move => "Move",
        InputMode::Prompt => "Prompt",
        InputMode::Tmux => "Tmux",
    }
}

/// The word shown for a direction.
pub open spec fn direction_word_spec(direction: Direction) -> Seq<char> {
    match direction {
        Direction::Left => "left"@,
        Direction::Right => "right"@,
        Direction::Up => "up"@,
        Direction::Down => "down"@,
    }
}

/// The word shown for a direction.
pub fn direction_word(direction: Direction) -> (word: &'static str)
    ensures
        word@ == direction_word_spec(direction),
{
    match direction {
        Direction::Left => "left",
        Direction::Right => "right",
        Direction::Up => "up",
        Direction::Down => "down",
    }
}

/// The hint of a resize: its verb, then the direction or "size".
pub open spec fn resize_label_spec(resize: Resize, direction: Option<Direction>) -> Seq<char> {
    let verb = match resize {
        Resize::Increase => "increase"@,
        Resize::Decrease => "decrease"@,
    };
    match direction {
        Some(d) => verb + " "@ + direction_word_spec(d),
        None => verb + " size"@,
    }
}

/// The hint of a resize: its verb, then the direction or "size".
pub fn resize_label(resize: Resize, direction: Option<Direction>) -> (label: String)
    ensures
        label@ == resize_label_spec(resize, direction),
{
    let verb = match resize {
        Resize::Increase => "increase",
        Resize::Decrease => "decrease",
    };
    match direction {
        Some(d) => String::from_str(verb).concat(" ").concat(direction_word(d)),
        None => String::from_str(verb).concat(" size"),
    }
}

/// `s` with every '-' and '_' turned into a space.
pub open spec fn spaced(s: Seq<char>) -> Seq<char> {
    s.map_values(|c: char| if c == '-' || c == '_' { ' ' } else { c })
}

/// Appends `v[from..to]` to `out` with every '-' and '_' turned into a space.
fn push_spaced(out: &mut String, v: &Vec<char>, from: usize, to: usize)
    requires
        from <= to <= v@.len(),
    ensures
        final(out)@ == old(out)@ + spaced(v@.subrange(from as int, to as int)),
{
    let mut i = from;
    while i < to
        invariant
            from <= i <= to <= v@.len(),
            out@ == old(out)@ + spaced(v@.subrange(from as int, i as int)),
        decreases to - i,
    {
        let c = v[i];
        let d = if c == '-' || c == '_' { ' ' } else { c };
        push_char(out, d);
        assert(spaced(v@.subrange(from as int, i + 1)) =~= spaced(v@.subrange(from as int, i as int)).push(d));
        i = i + 1;
    }
}

/// `s` with every '-' and '_' turned into a space.
pub fn spaced_text(s: &str) -> (r: String)
    ensures
        r@ == spaced(s@),
{
    let v = chars_of(s);
    let mut out = String::new();
    push_spaced(&mut out, &v, 0, v.len());
    assert(v@.subrange(0, v@.len() as int) == v@);
    out
}

/// The scheme that plugin locations on disk start with.
pub open spec fn file_scheme() -> Seq<char> {
    seq!['f', 'i', 'l', 'e', ':']
}

/// The file extension of plugin binaries.
pub open spec fn wasm_extension() -> Seq<char> {
    seq!['.', 'w', 'a', 's', 'm']
}

/// `s` without the prefix `p`, when it starts with it.
pub open spec fn strip_prefix_spec(s: Seq<char>, p: Seq<char>) -> Seq<char> {
    if p.len() <= s.len() && s.take(p.len() as int) == p {
        s.skip(p.len() as int)
    } else {
        s
    }
}

/// `s` without the suffix `p`, when it ends with it.
pub open spec fn strip_suffix_spec(s: Seq<char>, p: Seq<char>) -> Seq<char> {
    if p.len() <= s.len() && s.skip(s.len() - p.len()) == p {
        s.take(s.len() - p.len())
    } else {
        s
    }
}

/// The part of `s` after its last '/', or all of `s` when it has none.
pub open spec fn last_segment(s: Seq<char>) -> Seq<char>
    decreases s.len(),
{
    if s.len() == 0 {
        s
    } else if s.last() == '/' {
        Seq::empty()
    } else {
        last_segment(s.drop_last()).push(s.last())
    }
}

/// The hint of a plugin: the file name of its location, without a `file:`
/// scheme, a directory or a `.wasm` extension, with '-' and '_' as spaces.
pub open spec fn plugin_location_label_spec(location: Seq<char>) -> Seq<char> {
    spaced(
        strip_suffix_spec(last_segment(strip_prefix_spec(location, file_scheme())), wasm_extension()),
    )
}

/// The hint of a plugin: the file name of its location, without a `file:`
/// scheme, a directory or a `.wasm` extension, with '-' and '_' as spaces.
pub fn plugin_location_label(location: &str) -> (label: String)
    ensures
        label@ == plugin_location_label_spec(location@),
{
    let v = chars_of(location);
    let len = v.len();
    let ghost s = v@;
    let start: usize = if len >= 5 && v[0] == 'f' && v[1] == 'i' && v[2] == 'l' && v[3] == 'e'
        && v[4] == ':' {
        assert(s.take(5) =~= file_scheme());
        5
    } else {
        assert(!(file_scheme().len() <= s.len() && s.take(5) == file_scheme())) by {
            if 5 <= s.len() && s.take(5) == file_scheme() {
                assert(s.take(5)[0] == 'f');
                assert(s.take(5)[1] == 'i');
                assert(s.take(5)[2] == 'l');
                assert(s.take(5)[3] == 'e');
                assert(s.take(5)[4] == ':');
            }
        }
        0
    };
    assert(strip_prefix_spec(s, file_scheme()) == s.subrange(start as int, len as int));
    let mut j = len;
    while j > start && v[j - 1] != '/'
        invariant
            start <= j <= len == s.len(),
            v@ == s,
            last_segment(s.subrange(start as int, len as int)) == last_segment(
                s.subrange(start as int, j as int),
            ) + s.subrange(j as int, len as int),
        decreases j,
    {
        let ghost t = s.subrange(start as int, j as int);
        assert(t.drop_last() =~= s.subrange(start as int, j - 1));
        assert(t.last() == s[j - 1]);
        assert(s.subrange(j - 1, len as int) =~= seq![s[j - 1]] + s.subrange(j as int, len as int));
        j = j - 1;
    }
    let ghost seg = s.subrange(j as int, len as int);
    assert(last_segment(s.subrange(start as int, len as int)) == seg) by {
        let t = s.subrange(start as int, j as int);
        if j > start {
            assert(t.last() == '/');
        } else {
            assert(t.len() == 0);
        }
        assert(last_segment(t) + seg =~= seg);
    }
    let end: usize = if len - j >= 5 && v[len - 5] == '.' && v[len - 4] == 'w' && v[len - 3] == 'a'
        && v[len - 2] == 's' && v[len - 1] == 'm' {
        assert(seg.skip(seg.len() - 5) =~= wasm_extension());
        assert(seg.take(seg.len() - 5) =~= s.subrange(j as int, len - 5));
        len - 5
    } else {
        assert(!(5 <= seg.len() && seg.skip(seg.len() - 5) == wasm_extension())) by {
            if 5 <= seg.len() && seg.skip(seg.len() - 5) == wasm_extension() {
                let w = seg.skip(seg.len() - 5);
                assert(w[0] == s[len - 5]);
                assert(w[1] == s[len - 4]);
                assert(w[2] == s[len - 3]);
                assert(w[3] == s[len - 2]);
                assert(w[4] == s[len - 1]);
            }
        }
        len
    };
    let mut out = String::new();
    push_spaced(&mut out, &v, j, end);
    assert(out@ =~= spaced(s.subrange(j as int, end as int)));
    out
}

/// The text a pipe is shown by: its name, else its payload, else "pipe".
pub open spec fn pipe_text_spec(name: Option<String>, payload: Option<String>) -> Seq<char> {
    match name {
        Some(n) => n@,
        None => match payload {
            Some(p) => p@,
            None => "pipe"@,
        },
    }
}

/// The hint of a pipe: its name, else its payload, else "pipe", with '-' and
/// '_' as spaces.
pub fn pipe_label(name: &Option<String>, payload: &Option<String>) -> (label: String)
    ensures
        label@ == spaced(pipe_text_spec(*name, *payload)),
{
    let text: &str = match name {
        Some(n) => n.as_str(),
        None => match payload {
            Some(p) => p.as_str(),
            None => "pipe",
        },
    };
    spaced_text(text)
}

/// The hint of an action; `None` for an action that does nothing.
pub open spec fn action_label_spec(action: Action) -> Option<Seq<char>> {
    match action {
        Action::SwitchToMode { input_mode } => Some(mode_label_spec(input_mode) + " mode"@),
        Action::SwitchModeForAllClients { input_mode } => Some(
            "all clients: "@ + mode_label_spec(input_mode) + " mode"@,
        ),
        Action::SwitchFocus => Some("switch focus"@),
        Action::MoveFocus { direction } => Some("focus "@ + direction_word_spec(direction)),
        Action::MoveFocusOrTab { direction } => Some("focus/tab "@ + direction_word_spec(direction)),
        Action::MovePane { direction } => Some(
            match direction {
                Some(d) => "move pane "@ + direction_word_spec(d),
                None => "move pane"@,
            },
        ),
        Action::MovePaneBackwards => Some("move pane back"@),
        Action::NewPane { direction } => Some(
            match direction {
                Some(d) => "split "@ + direction_word_spec(d),
                None => "new pane"@,
            },
        ),
        Action::NewTiledPane { direction } => Some(
            match direction {
                Some(d) => "split "@ + direction_word_spec(d),
                None => "new pane"@,
            },
        ),
        Action::NewFloatingPane => Some("new floating pane"@),
        Action::NewInPlacePane => Some("new in-place pane"@),
        Action::NewBlockingPane => Some("new blocking pane"@),
        Action::NewStackedPane => Some("new stacked pane"@),
        Action::CloseFocus => Some("close pane"@),
        Action::ToggleFocusFullscreen => Some("fullscreen"@),
        Action::ToggleFloatingPanes => Some("toggle floating panes"@),
        Action::HideFloatingPanes => Some("close overlay"@),
        Action::ShowFloatingPanes => Some("show floating panes"@),
        Action::TogglePaneEmbedOrFloating => Some("embed/float pane"@),
        Action::TogglePanePinned => Some("toggle pane pinned"@),
        Action::StackPanes => Some("stack panes"@),
        Action::TogglePaneInGroup => Some("toggle pane group"@),
        Action::ToggleGroupMarking => Some("toggle group marking"@),
        Action::TogglePaneFrames => Some("toggle pane frames"@),
        Action::Resize { resize, direction } => Some(resize_label_spec(resize, direction)),
        Action::FocusNextPane => Some("next pane"@),
        Action::FocusPreviousPane => Some("previous pane"@),
        Action::NewTab => Some("new tab"@),
        Action::CloseTab => Some("close tab"@),
        Action::GoToNextTab => Some("next tab"@),
        Action::GoToPreviousTab => Some("previous tab"@),
        Action::GoToTab { index } => Some("go to tab "@ + decimal(index as nat)),
        Action::ToggleTab => Some("toggle tab"@),
        Action::ToggleActiveSyncTab => Some("toggle sync"@),
        Action::MoveTab { direction } => Some("move tab "@ + direction_word_spec(direction)),
        Action::BreakPane => Some("break pane"@),
        Action::BreakPaneLeft => Some("break pane left"@),
        Action::BreakPaneRight => Some("break pane right"@),
        Action::PaneNameInput => Some("rename pane"@),
        Action::TabNameInput => Some("rename tab"@),
        Action::UndoRenamePane => Some("undo pane rename"@),
        Action::UndoRenameTab => Some("undo tab rename"@),
        Action::ScrollUp => Some("scroll up"@),
        Action::ScrollDown => Some("scroll down"@),
        Action::ScrollToTop => Some("scroll top"@),
        Action::ScrollToBottom => Some("scroll bottom"@),
        Action::PageScrollUp => Some("page up"@),
        Action::PageScrollDown => Some("page down"@),
        Action::HalfPageScrollUp => Some("half page up"@),
        Action::HalfPageScrollDown => Some("half page down"@),
        Action::EditScrollback => Some("edit scrollback"@),
        Action::Search { direction } => Some(
            match direction {
                SearchDirection::Up => "search up"@,
                SearchDirection::Down => "search down"@,
            },
        ),
        Action::SearchInput => Some("search input"@),
        Action::SearchToggleOption => Some("toggle search option"@),
        Action::Detach => Some("detach"@),
        Action::Quit => Some("quit"@),
        Action::LaunchOrFocusPlugin { location } => Some(plugin_location_label_spec(location@)),
        Action::LaunchPlugin { location } => Some(plugin_location_label_spec(location@)),
        Action::NewFloatingPluginPane { location } => Some(plugin_location_label_spec(location@)),
        Action::NewTiledPluginPane { location } => Some(plugin_location_label_spec(location@)),
        Action::NewInPlacePluginPane { location } => Some(plugin_location_label_spec(location@)),
        Action::StartOrReloadPlugin { location } => Some(plugin_location_label_spec(location@)),
        Action::KeybindPipe { name, payload } => Some(spaced(pipe_text_spec(name, payload))),
        Action::CliPipe { name, payload } => Some(spaced(pipe_text_spec(name, payload))),
        Action::NoOp => None,
        Action::Other { text } => Some(text@),
    }
}

fn text(s: &str) -> (r: String)
    ensures
        r@ == s@,
{
    String::from_str(s)
}

fn with_direction(prefix: &str, direction: Direction) -> (r: String)
    ensures
        r@ == prefix@ + direction_word_spec(direction),
{
    String::from_str(prefix).concat(direction_word(direction))
}

/// The hint of an action; `None` for an action that does nothing.
pub fn action_label(action: &Action) -> (label: Option<String>)
    ensures
        match label {
            Some(l) => action_label_spec(*action) == Some(l@),
            None => action_label_spec(*action) is None,
        },
{
    match action {
        Action::SwitchToMode { input_mode } => Some(
            String::from_str(mode_label(*input_mode)).concat(" mode"),
        ),
        Action::SwitchModeForAllClients { input_mode } => Some(
            String::from_str("all clients: ").concat(mode_label(*input_mode)).concat(" mode"),
        ),
        Action::SwitchFocus => Some(text("switch focus")),
        Action::MoveFocus { direction } => Some(with_direction("focus ", *direction)),
        Action::MoveFocusOrTab { direction } => Some(with_direction("focus/tab ", *direction)),
        Action::MovePane { direction } => Some(
            match direction {
                Some(d) => with_direction("move pane ", *d),
                None => text("move pane"),
            },
        ),
        Action::MovePaneBackwards => Some(text("move pane back")),
        Action::NewPane { direction } => Some(
            match direction {
                Some(d) => with_direction("split ", *d),
                None => text("new pane"),
            },
        ),
        Action::NewTiledPane { direction } => Some(
            match direction {
                Some(d) => with_direction("split ", *d),
                None => text("new pane"),
            },
        ),
        Action::NewFloatingPane => Some(text("new floating pane")),
        Action::NewInPlacePane => Some(text("new in-place pane")),
        Action::NewBlockingPane => Some(text("new blocking pane")),
        Action::NewStackedPane => Some(text("new stacked pane")),
        Action::CloseFocus => Some(text("close pane")),
        Action::ToggleFocusFullscreen => Some(text("fullscreen")),
        Action::ToggleFloatingPanes => Some(text("toggle floating panes")),
        Action::HideFloatingPanes => Some(text("close overlay")),
        Action::ShowFloatingPanes => Some(text("show floating panes")),
        Action::TogglePaneEmbedOrFloating => Some(text("embed/float pane")),
        Action::TogglePanePinned => Some(text("toggle pane pinned")),
        Action::StackPanes => Some(text("stack panes")),
        Action::TogglePaneInGroup => Some(text("toggle pane group")),
        Action::ToggleGroupMarking => Some(text("toggle group marking")),
        Action::TogglePaneFrames => Some(text("toggle pane frames")),
        Action::Resize { resize, direction } => Some(resize_label(*resize, *direction)),
        Action::FocusNextPane => Some(text("next pane")),
        Action::FocusPreviousPane => Some(text("previous pane")),
        Action::NewTab => Some(text("new tab")),
        Action::CloseTab => Some(text("close tab")),
        Action::GoToNextTab => Some(text("next tab")),
        Action::GoToPreviousTab => Some(text("previous tab")),
        Action::GoToTab { index } => {
            let mut s = text("go to tab ");
            push_decimal(&mut s, *index);
            Some(s)
        },
        Action::ToggleTab => Some(text("toggle tab")),
        Action::ToggleActiveSyncTab => Some(text("toggle sync")),
        Action::MoveTab { direction } => Some(with_direction("move tab ", *direction)),
        Action::BreakPane => Some(text("break pane")),
        Action::BreakPaneLeft => Some(text("break pane left")),
        Action::BreakPaneRight => Some(text("break pane right")),
        Action::PaneNameInput => Some(text("rename pane")),
        Action::TabNameInput => Some(text("rename tab")),
        Action::UndoRenamePane => Some(text("undo pane rename")),
        Action::UndoRenameTab => Some(text("undo tab rename")),
        Action::ScrollUp => Some(text("scroll up")),
        Action::ScrollDown => Some(text("scroll down")),
        Action::ScrollToTop => Some(text("scroll top")),
        Action::ScrollToBottom => Some(text("scroll bottom")),
        Action::PageScrollUp => Some(text("page up")),
        Action::PageScrollDown => Some(text("page down")),
        Action::HalfPageScrollUp => Some(text("half page up")),
        Action::HalfPageScrollDown => Some(text("half page down")),
        Action::EditScrollback => Some(text("edit scrollback")),
        Action::Search { direction } => Some(
            match direction {
                SearchDirection::Up => text("search up"),
                SearchDirection::Down => text("search down"),
            },
        ),
        Action::SearchInput => Some(text("search input")),
        Action::SearchToggleOption => Some(text("toggle search option")),
        Action::Detach => Some(text("detach")),
        Action::Quit => Some(text("quit")),
        Action::LaunchOrFocusPlugin { location } => Some(plugin_location_label(location.as_str())),
        Action::LaunchPlugin { location } => Some(plugin_location_label(location.as_str())),
        Action::NewFloatingPluginPane { location } => Some(
            plugin_location_label(location.as_str()),
        ),
        Action::NewTiledPluginPane { location } => Some(plugin_location_label(location.as_str())),
        Action::NewInPlacePluginPane { location } => Some(
            plugin_location_label(location.as_str()),
        ),
        Action::StartOrReloadPlugin { location } => Some(plugin_location_label(location.as_str())),
        Action::KeybindPipe { name, payload } => Some(pipe_label(name, payload)),
        Action::CliPipe { name, payload } => Some(pipe_label(name, payload)),
        Action::NoOp => None,
        Action::Other { text } => Some(text.clone()),
    }
}

/// Whether an action only switches to the locked mode, the cleanup that
/// key bindings run on their way out of a mode.
pub open spec fn is_lock_switch(action: Action) -> bool {
    action matches Action::SwitchToMode { input_mode: InputMode::Locked }
}

/// The hints of `actions` in order, leaving out switches to the locked mode
/// and actions without a hint.
pub open spec fn sequence_labels(actions: Seq<Action>) -> Seq<Seq<char>>
    decreases actions.len(),
{
    if actions.len() == 0 {
        Seq::empty()
    } else {
        let prev = sequence_labels(actions.drop_last());
        let a = actions.last();
        if is_lock_switch(a) {
            prev
        } else {
            match action_label_spec(a) {
                Some(l) => prev.push(l),
                None => prev,
            }
        }
    }
}

/// The texts of `list` with `sep` between each two.
pub open spec fn join(list: Seq<Seq<char>>, sep: Seq<char>) -> Seq<char>
    decreases list.len(),
{
    if list.len() == 0 {
        Seq::empty()
    } else if list.len() == 1 {
        list[0]
    } else {
        join(list.drop_last(), sep) + sep + list.last()
    }
}

/// What separates the hints of consecutive actions of one binding.
pub open spec fn arrow_separator() -> Seq<char> {
    " → "@
}

/// The hint of a binding's actions: their hints joined by arrows, or `None`
/// when none of them has a hint.
pub open spec fn action_sequence_label_spec(actions: Seq<Action>) -> Option<Seq<char>> {
    let labels = sequence_labels(actions);
    if labels.len() == 0 {
        None
    } else {
        Some(join(labels, arrow_separator()))
    }
}

/// Whether an action is left out of a binding's hint.
pub open spec fn is_silent(action: Action) -> bool {
    is_lock_switch(action) || action is NoOp
}

proof fn lemma_no_labels_iff_silent(actions: Seq<Action>)
    ensures
        sequence_labels(actions).len() == 0 <==> forall|i: int|
            0 <= i < actions.len() ==> #[trigger] is_silent(actions[i]),
    decreases actions.len(),
{
    if actions.len() > 0 {
        let prev = actions.drop_last();
        lemma_no_labels_iff_silent(prev);
        assert forall|i: int| 0 <= i < prev.len() implies prev[i] == actions[i] by {}
        if sequence_labels(actions).len() == 0 {
            assert forall|i: int| 0 <= i < actions.len() implies #[trigger] is_silent(actions[i]) by {
                if i < prev.len() {
                    assert(is_silent(prev[i]));
                }
            }
        } else {
            if forall|i: int| 0 <= i < actions.len() ==> #[trigger] is_silent(actions[i]) {
                assert(is_silent(actions[actions.len() - 1]));
                assert forall|i: int| 0 <= i < prev.len() implies #[trigger] is_silent(prev[i]) by {
                    assert(is_silent(actions[i]));
                }
            }
        }
    }
}

/// The hint of a binding's actions: their hints joined by arrows, leaving out
/// switches to the locked mode; `None` exactly when every action is such a
/// switch or does nothing.
pub fn action_sequence_label(actions: &[Action]) -> (label: Option<String>)
    ensures
        match label {
            Some(l) => action_sequence_label_spec(actions@) == Some(l@),
            None => action_sequence_label_spec(actions@) is None,
        },
        label is None <==> forall|i: int|
            0 <= i < actions@.len() ==> #[trigger] is_silent(actions@[i]),
{
    let mut out = String::new();
    let mut count: usize = 0;
    let n = actions.len();
    for i in 0..n
        invariant
            n == actions@.len(),
            count as nat == sequence_labels(actions@.take(i as int)).len(),
            count <= i,
            out@ == join(sequence_labels(actions@.take(i as int)), arrow_separator()),
    {
        let ghost before = actions@.take(i as int);
        assert(actions@.take(i + 1).drop_last() =~= before);
        assert(actions@.take(i + 1).last() == actions@[i as int]);
        let a = &actions[i];
        let locked = match a {
            Action::SwitchToMode { input_mode: InputMode::Locked } => true,
            _ => false,
        };
        if !locked {
            match action_label(a) {
                Some(l) => {
                    if count > 0 {
                        out.append(" → ");
                    }
                    out.append(l.as_str());
                    count = count + 1;
                    let ghost labels = sequence_labels(actions@.take(i + 1));
                    assert(labels.drop_last() == sequence_labels(before));
                },
                None => {},
            }
        }
    }
    assert(actions@.take(n as int) =~= actions@);
    proof {
        lemma_no_labels_iff_silent(actions@);
    }
    if count == 0 {
        None
    } else {
        Some(out)
    }
}

} // verus!
