//! The plugin's state and its reaction to Zellij's events: what it keeps,
//! where it puts its pane, when it hides, and what it draws.

use vstd::prelude::*;
use vstd::string::*;
use crate::layout::{
    bottom_aligned_y, bottom_aligned_y_spec, floating_pane_dimensions,
    floating_pane_dimensions_spec, overlay_content_height, FLOATING_FRAME_COLUMNS,
    FLOATING_FRAME_ROWS, MENU_MARGIN_RIGHT,
};
use crate::model::{Action, InputMode};
use crate::render::{clear_screen, render_overlay, render_overlay_spec};
use crate::rows::{overlay_content_width, overlay_content_width_spec, overlay_rows, overlay_rows_spec, sat_add, sat_sub};

verus! {

/// A binding of the keymap: the key's text and its actions.
pub type KeyBinding = (String, Vec<Action>);

/// What the plugin reads of Zellij's mode information: the current mode,
/// the mode Zellij returns to, and the keymap of every mode.
pub struct ModeView {
    pub mode: InputMode,
    pub base_mode: Option<InputMode>,
    pub keybinds: Vec<(InputMode, Vec<KeyBinding>)>,
}

/// The bindings of the first entry of `keybinds` for `mode`; none when there
/// is no such entry.
pub open spec fn keybinds_for_mode_spec(keybinds: Seq<(InputMode, Vec<KeyBinding>)>, mode: InputMode) -> Seq<KeyBinding>
    decreases keybinds.len(),
{
    if keybinds.len() == 0 {
        Seq::empty()
    } else if keybinds[0].0 == mode {
        keybinds[0].1@
    } else {
        keybinds_for_mode_spec(keybinds.drop_first(), mode)
    }
}

impl ModeView {
    /// No mode information yet: normal mode, no base mode, no bindings.
    pub fn new() -> (m: ModeView)
        ensures
            m.mode == InputMode::Normal,
            m.base_mode is None,
            m.keybinds@.len() == 0,
    {
        ModeView { mode: InputMode::Normal, base_mode: None, keybinds: Vec::new() }
    }

    /// The bindings of `mode`: those of its first entry, none without one.
    pub fn get_keybinds_for_mode(&self, mode: InputMode) -> (bindings: &[KeyBinding])
        ensures
            bindings@ == keybinds_for_mode_spec(self.keybinds@, mode),
    {
        let n = self.keybinds.len();
        let mut i: usize = 0;
        assert(self.keybinds@.skip(0) =~= self.keybinds@);
        while i < n
            invariant
                i <= n == self.keybinds@.len(),
                keybinds_for_mode_spec(self.keybinds@, mode) == keybinds_for_mode_spec(
                    self.keybinds@.skip(i as int),
                    mode,
                ),
            decreases n - i,
        {
            assert(self.keybinds@.skip(i as int)[0] == self.keybinds@[i as int]);
            if self.keybinds[i].0 == mode {
                return self.keybinds[i].1.as_slice();
            }
            assert(self.keybinds@.skip(i as int).drop_first() =~= self.keybinds@.skip(i + 1));
            i = i + 1;
        }
        let none: &[KeyBinding] = &[];
        assert(none@ =~= Seq::<KeyBinding>::empty());
        none
    }

    /// The bindings of the current mode.
    pub fn get_mode_keybinds(&self) -> (bindings: &[KeyBinding])
        ensures
            bindings@ == keybinds_for_mode_spec(self.keybinds@, self.mode),
    {
        self.get_keybinds_for_mode(self.mode)
    }
}

/// The bindings looked up for a mode are those of the first entry for that
/// mode; there are none when no entry is for that mode.
pub proof fn lemma_keybinds_for_mode_first_entry(keybinds: Seq<(InputMode, Vec<KeyBinding>)>, mode: InputMode)
    ensures
        (exists|j: int| 0 <= j < keybinds.len() && #[trigger] keybinds[j].0 == mode) ==> exists|j: int|
            {
                &&& 0 <= j < keybinds.len()
                &&& #[trigger] keybinds[j].0 == mode
                &&& keybinds_for_mode_spec(keybinds, mode) == keybinds[j].1@
                &&& forall|k: int| 0 <= k < j ==> #[trigger] keybinds[k].0 != mode
            },
        (forall|j: int| 0 <= j < keybinds.len() ==> #[trigger] keybinds[j].0 != mode) ==> keybinds_for_mode_spec(
            keybinds,
            mode,
        ).len() == 0,
    decreases keybinds.len(),
{
    if keybinds.len() > 0 {
        let rest = keybinds.drop_first();
        lemma_keybinds_for_mode_first_entry(rest, mode);
        if keybinds[0].0 == mode {
            assert(keybinds[0].0 == mode);
        } else {
            if exists|j: int| 0 <= j < keybinds.len() && #[trigger] keybinds[j].0 == mode {
                let j0 = choose|j: int| 0 <= j < keybinds.len() && #[trigger] keybinds[j].0 == mode;
                assert(rest[j0 - 1].0 == mode);
                let j1 = choose|j: int|
                    {
                        &&& 0 <= j < rest.len()
                        &&& #[trigger] rest[j].0 == mode
                        &&& keybinds_for_mode_spec(rest, mode) == rest[j].1@
                        &&& forall|k: int| 0 <= k < j ==> #[trigger] rest[k].0 != mode
                    };
                assert(keybinds[j1 + 1].0 == mode);
                assert forall|k: int| 0 <= k < j1 + 1 implies #[trigger] keybinds[k].0 != mode by {
                    if k > 0 {
                        assert(rest[k - 1].0 != mode);
                    }
                }
            }
            if forall|j: int| 0 <= j < keybinds.len() ==> #[trigger] keybinds[j].0 != mode {
                assert forall|j: int| 0 <= j < rest.len() implies #[trigger] rest[j].0 != mode by {
                    assert(keybinds[j + 1].0 != mode);
                }
            }
        }
    }
}

/// The keymap the overlay shows is that of the current mode: the bindings
/// of the first entry whose mode is the current mode, none without one.
pub proof fn lemma_keymap_is_current_modes(mode_info: ModeView)
    ensures
        (exists|j: int| 0 <= j < mode_info.keybinds@.len() && #[trigger] mode_info.keybinds@[j].0 == mode_info.mode)
            ==> exists|j: int|
            {
                &&& 0 <= j < mode_info.keybinds@.len()
                &&& #[trigger] mode_info.keybinds@[j].0 == mode_info.mode
                &&& keymap_spec(mode_info) == mode_info.keybinds@[j].1@
                &&& forall|k: int| 0 <= k < j ==> #[trigger] mode_info.keybinds@[k].0 != mode_info.mode
            },
        (forall|j: int| 0 <= j < mode_info.keybinds@.len() ==> #[trigger] mode_info.keybinds@[j].0 != mode_info.mode)
            ==> keymap_spec(mode_info).len() == 0,
{
    lemma_keybinds_for_mode_first_entry(mode_info.keybinds@, mode_info.mode);
}

/// The keymap the overlay shows: the bindings of the current mode.
pub open spec fn keymap_spec(mode_info: ModeView) -> Seq<KeyBinding> {
    keybinds_for_mode_spec(mode_info.keybinds@, mode_info.mode)
}

/// The keymap the overlay shows: the bindings of the current mode.
pub fn get_keymap_for_mode(mode_info: &ModeView) -> (keymap: &[KeyBinding])
    ensures
        keymap@ == keymap_spec(*mode_info),
{
    match mode_info.mode {
        InputMode::Normal => mode_info.get_keybinds_for_mode(InputMode::Normal),
        InputMode::Pane => mode_info.get_keybinds_for_mode(InputMode::Pane),
        InputMode::Tab => mode_info.get_keybinds_for_mode(InputMode::Tab),
        InputMode::Resize => mode_info.get_keybinds_for_mode(InputMode::Resize),
        InputMode::Move => mode_info.get_keybinds_for_mode(InputMode::Move),
        InputMode::Scroll => mode_info.get_keybinds_for_mode(InputMode::Scroll),
        InputMode::Search => mode_info.get_keybinds_for_mode(InputMode::Search),
        InputMode::Session => mode_info.get_keybinds_for_mode(InputMode::Session),
        _ => mode_info.get_mode_keybinds(),
    }
}

/// Whether the overlay is shown in this mode: when it is not the mode Zellij
/// returns to.
pub open spec fn should_render_spec(mode_info: ModeView) -> bool {
    mode_info.base_mode != Some(mode_info.mode)
}

/// Whether the overlay is shown in this mode: when it is not the mode Zellij
/// returns to.
pub fn should_render_for_mode(mode_info: &ModeView) -> (r: bool)
    ensures
        r == should_render_spec(*mode_info),
{
    match mode_info.base_mode {
        Some(base) => base != mode_info.mode,
        None => true,
    }
}

/// Whether the overlay closes in this mode: when it has been shown before
/// and Zellij is back in its base mode.
pub open spec fn should_hide_spec(mode_info: ModeView, renderable_mode_seen: bool) -> bool {
    renderable_mode_seen && !should_render_spec(mode_info)
}

/// Whether the overlay closes in this mode: when it has been shown before
/// and Zellij is back in its base mode.
pub fn should_hide_for_mode(mode_info: &ModeView, renderable_mode_seen: bool) -> (r: bool)
    ensures
        r == should_hide_spec(*mode_info, renderable_mode_seen),
{
    renderable_mode_seen && !should_render_for_mode(mode_info)
}

/// What the plugin reads of a tab.
pub struct TabView {
    pub active: bool,
    pub viewport_rows: usize,
    pub viewport_columns: usize,
}

/// The first active tab.
pub open spec fn first_active(tabs: Seq<TabView>) -> Option<TabView>
    decreases tabs.len(),
{
    if tabs.len() == 0 {
        None
    } else if tabs[0].active {
        Some(tabs[0])
    } else {
        first_active(tabs.drop_first())
    }
}

fn find_active(tabs: &Vec<TabView>) -> (r: Option<usize>)
    ensures
        match r {
            Some(i) => i < tabs@.len() && first_active(tabs@) == Some(tabs@[i as int]),
            None => first_active(tabs@) is None,
        },
{
    let n = tabs.len();
    let mut i: usize = 0;
    assert(tabs@.skip(0) =~= tabs@);
    while i < n
        invariant
            i <= n == tabs@.len(),
            first_active(tabs@) == first_active(tabs@.skip(i as int)),
        decreases n - i,
    {
        assert(tabs@.skip(i as int)[0] == tabs@[i as int]);
        if tabs[i].active {
            return Some(i);
        }
        assert(tabs@.skip(i as int).drop_first() =~= tabs@.skip(i + 1));
        i = i + 1;
    }
    None
}

/// Zellij's answer to the plugin's permission request.
#[derive(Clone, Copy, Debug, PartialEq, Eq, Structural)]
pub enum PermissionStatus {
    Granted,
    Denied,
}

/// The events the plugin reacts to; `Other` stands for every other event.
pub enum PluginEvent {
    ModeUpdate(ModeView),
    TabUpdate(Vec<TabView>),
    PaneUpdate,
    PermissionRequestResult(PermissionStatus),
    Visible(bool),
    Other,
}

/// Where the plugin puts its floating pane, and its size.
#[derive(Clone, Copy, Debug, PartialEq, Eq, Structural)]
pub struct Placement {
    pub x: usize,
    pub y: usize,
    pub width: usize,
    pub height: usize,
}

/// What an event asks of Zellij, in this order: to hide the plugin, to place
/// its pane, to give the focus back to the terminal; and whether to draw.
pub struct UpdateEffects {
    pub hide: bool,
    pub placement: Option<Placement>,
    pub restore_focus: bool,
    pub render: bool,
}

/// The plugin's state.
pub struct WhichKeyHints {
    pub mode_info: ModeView,
    pub active_rows: usize,
    pub active_cols: usize,
    pub permissions_granted: bool,
    pub renderable_mode_seen: bool,
}

/// The size of the pane for the plugin's current rows, if the tab has room.
pub open spec fn overlay_dimensions_spec(s: WhichKeyHints) -> Option<(int, int)> {
    let rows = overlay_rows_spec(keymap_spec(s.mode_info), s.permissions_granted);
    floating_pane_dimensions_spec(
        s.active_cols as int,
        s.active_rows as int,
        overlay_content_width_spec(rows),
        rows.len() as int,
    )
}

/// Where the pane goes: at the bottom of the active tab, `MENU_MARGIN_RIGHT`
/// columns from its right side; nowhere before the tab's size is known or
/// when the tab has no room.
pub open spec fn placement_spec(s: WhichKeyHints) -> Option<Placement> {
    if s.active_cols == 0 || s.active_rows == 0 {
        None
    } else {
        match overlay_dimensions_spec(s) {
            None => None,
            Some((w, h)) => Some(
                Placement {
                    x: sat_sub(s.active_cols as int, sat_add(w, MENU_MARGIN_RIGHT as int)) as usize,
                    y: bottom_aligned_y_spec(s.active_rows as int, h) as usize,
                    width: w as usize,
                    height: h as usize,
                },
            ),
        }
    }
}

/// The state after an event.
pub open spec fn next_state(s: WhichKeyHints, event: PluginEvent) -> WhichKeyHints {
    match event {
        PluginEvent::ModeUpdate(mode_info) => {
            let seen = if should_hide_spec(mode_info, s.renderable_mode_seen) {
                s.renderable_mode_seen
            } else {
                s.renderable_mode_seen || should_render_spec(mode_info)
            };
            WhichKeyHints { mode_info, renderable_mode_seen: seen, ..s }
        },
        PluginEvent::TabUpdate(tabs) => match first_active(tabs@) {
            Some(tab) => WhichKeyHints {
                active_rows: tab.viewport_rows,
                active_cols: tab.viewport_columns,
                ..s
            },
            None => s,
        },
        PluginEvent::PermissionRequestResult(PermissionStatus::Granted) => WhichKeyHints {
            permissions_granted: true,
            ..s
        },
        _ => s,
    }
}

/// What an event asks of Zellij, given the state before it.
pub open spec fn effects_spec(s: WhichKeyHints, event: PluginEvent) -> UpdateEffects {
    let next = next_state(s, event);
    match event {
        PluginEvent::ModeUpdate(mode_info) => if should_hide_spec(mode_info, s.renderable_mode_seen) {
            UpdateEffects { hide: true, placement: None, restore_focus: false, render: false }
        } else {
            UpdateEffects {
                hide: false,
                placement: if should_render_spec(mode_info) {
                    placement_spec(next)
                } else {
                    None
                },
                restore_focus: false,
                render: true,
            }
        },
        PluginEvent::TabUpdate(tabs) => UpdateEffects {
            hide: false,
            placement: if first_active(tabs@) is Some {
                placement_spec(next)
            } else {
                None
            },
            restore_focus: false,
            render: true,
        },
        PluginEvent::PaneUpdate => UpdateEffects {
            hide: false,
            placement: placement_spec(next),
            restore_focus: false,
            render: true,
        },
        PluginEvent::PermissionRequestResult(PermissionStatus::Granted) => UpdateEffects {
            hide: false,
            placement: placement_spec(next),
            restore_focus: true,
            render: true,
        },
        PluginEvent::PermissionRequestResult(PermissionStatus::Denied) => UpdateEffects {
            hide: false,
            placement: None,
            restore_focus: false,
            render: true,
        },
        PluginEvent::Visible(true) => UpdateEffects {
            hide: false,
            placement: placement_spec(next),
            restore_focus: true,
            render: true,
        },
        _ => UpdateEffects { hide: false, placement: None, restore_focus: false, render: false },
    }
}

/// The screen the plugin draws in a pane of `rows` by `cols`: a cleared
/// screen in the base mode, the overlay otherwise.
pub open spec fn render_text_spec(s: WhichKeyHints, rows: int, cols: int) -> Seq<char> {
    if !should_render_spec(s.mode_info) {
        clear_screen()
    } else {
        render_overlay_spec(keymap_spec(s.mode_info), s.permissions_granted, rows, cols)
    }
}

/// The pane is placed in the bottom-right corner of the active tab, with
/// `MENU_MARGIN_RIGHT` columns free on its right, and holds its frame and at
/// least one row of content.
pub proof fn lemma_placement_bottom_right(s: WhichKeyHints)
    ensures
        placement_spec(s) matches Some(p) ==> {
            &&& p.x + p.width + MENU_MARGIN_RIGHT == s.active_cols
            &&& p.y + p.height == s.active_rows
            &&& p.width > FLOATING_FRAME_COLUMNS
            &&& p.height > FLOATING_FRAME_ROWS
        },
{
}

/// Only a permission grant and the plugin becoming visible give the focus
/// back to the terminal; only a mode update hides the plugin, and then it
/// neither draws nor places; a denial draws without placing; becoming
/// invisible and other events neither draw nor place; only a mode update
/// changes the mode information or whether a non-base mode was seen.
pub proof fn lemma_effects_by_event(s: WhichKeyHints, event: PluginEvent)
    ensures
        effects_spec(s, event).restore_focus <==> (event matches PluginEvent::PermissionRequestResult(
            PermissionStatus::Granted,
        ) || event matches PluginEvent::Visible(true)),
        effects_spec(s, event).hide ==> event is ModeUpdate,
        effects_spec(s, event).hide ==> !effects_spec(s, event).render
            && effects_spec(s, event).placement is None,
        event matches PluginEvent::PermissionRequestResult(PermissionStatus::Denied) ==> effects_spec(
            s,
            event,
        ).render && effects_spec(s, event).placement is None,
        (event matches PluginEvent::Visible(false) || event is Other) ==> !effects_spec(s, event).render
            && effects_spec(s, event).placement is None,
        !(event is ModeUpdate) ==> next_state(s, event).mode_info == s.mode_info
            && next_state(s, event).renderable_mode_seen == s.renderable_mode_seen,
{
}

/// Once a mode other than the base mode has been seen, and once the
/// permissions are granted, no event takes that back.
pub proof fn lemma_update_keeps_progress(s: WhichKeyHints, event: PluginEvent)
    ensures
        s.renderable_mode_seen ==> next_state(s, event).renderable_mode_seen,
        s.permissions_granted ==> next_state(s, event).permissions_granted,
{
}

/// The overlay closes when Zellij returns to its base mode after a mode that
/// showed it: the plugin hides itself and draws nothing. Before it was ever
/// shown, the base mode does not hide it.
pub proof fn lemma_base_mode_hides_overlay(s: WhichKeyHints, mode_info: ModeView)
    requires
        mode_info.base_mode == Some(mode_info.mode),
    ensures
        s.renderable_mode_seen ==> effects_spec(s, PluginEvent::ModeUpdate(mode_info)).hide
            && !effects_spec(s, PluginEvent::ModeUpdate(mode_info)).render,
        !s.renderable_mode_seen ==> !effects_spec(s, PluginEvent::ModeUpdate(mode_info)).hide,
        render_text_spec(next_state(s, PluginEvent::ModeUpdate(mode_info)), 0, 0) == clear_screen(),
{
}

/// A mode other than the base mode shows the overlay: the plugin notes that
/// it was shown, places its pane for the new keymap and draws it.
pub proof fn lemma_other_mode_shows_overlay(s: WhichKeyHints, mode_info: ModeView)
    requires
        mode_info.base_mode != Some(mode_info.mode),
    ensures
        next_state(s, PluginEvent::ModeUpdate(mode_info)).renderable_mode_seen,
        next_state(s, PluginEvent::ModeUpdate(mode_info)).mode_info == mode_info,
        effects_spec(s, PluginEvent::ModeUpdate(mode_info)) == (UpdateEffects {
            hide: false,
            placement: placement_spec(next_state(s, PluginEvent::ModeUpdate(mode_info))),
            restore_focus: false,
            render: true,
        }),
{
}

impl Default for WhichKeyHints {
    /// The state before any event, as `WhichKeyHints::new`.
    fn default() -> (s: WhichKeyHints)
        ensures
            s.mode_info.mode == InputMode::Normal,
            s.mode_info.base_mode is None,
            s.mode_info.keybinds@.len() == 0,
            s.active_rows == 0,
            s.active_cols == 0,
            !s.permissions_granted,
            !s.renderable_mode_seen,
    {
        WhichKeyHints::new()
    }
}

impl WhichKeyHints {
    /// The state before any event: no mode information, no tab size, no
    /// permissions, nothing shown yet.
    pub fn new() -> (s: WhichKeyHints)
        ensures
            s.mode_info.mode == InputMode::Normal,
            s.mode_info.base_mode is None,
            s.mode_info.keybinds@.len() == 0,
            s.active_rows == 0,
            s.active_cols == 0,
            !s.permissions_granted,
            !s.renderable_mode_seen,
    {
        WhichKeyHints {
            mode_info: ModeView::new(),
            active_rows: 0,
            active_cols: 0,
            permissions_granted: false,
            renderable_mode_seen: false,
        }
    }

    /// The size of the pane for the current rows, if the tab has room.
    pub fn overlay_dimensions(&self) -> (dims: Option<(usize, usize)>)
        ensures
            match dims {
                Some((w, h)) => overlay_dimensions_spec(*self) == Some((w as int, h as int)),
                None => overlay_dimensions_spec(*self) is None,
            },
    {
        let keymap = get_keymap_for_mode(&self.mode_info);
        let rows = overlay_rows(keymap, self.permissions_granted);
        let content_height = overlay_content_height(rows.len());
        let content_width = overlay_content_width(rows.as_slice());
        floating_pane_dimensions(self.active_cols, self.active_rows, content_width, content_height)
    }

    /// Where the pane goes: at the bottom of the active tab, left of the
    /// margin; nowhere before the tab's size is known or without room.
    pub fn position_self(&self) -> (p: Option<Placement>)
        ensures
            p == placement_spec(*self),
    {
        if self.active_cols == 0 || self.active_rows == 0 {
            return None;
        }
        let (width, height) = match self.overlay_dimensions() {
            Some(d) => d,
            None => {
                return None;
            },
        };
        let x = self.active_cols.saturating_sub(width.saturating_add(MENU_MARGIN_RIGHT));
        let y = bottom_aligned_y(self.active_rows, height);
        Some(Placement { x, y, width, height })
    }

    /// Takes an event in: keeps what it tells, and says what Zellij is to do
    /// and whether to draw.
    pub fn update(&mut self, event: PluginEvent) -> (effects: UpdateEffects)
        ensures
            *final(self) == next_state(*old(self), event),
            effects == effects_spec(*old(self), event),
    {
        match event {
            PluginEvent::ModeUpdate(mode_info) => {
                self.mode_info = mode_info;
                if should_hide_for_mode(&self.mode_info, self.renderable_mode_seen) {
                    return UpdateEffects {
                        hide: true,
                        placement: None,
                        restore_focus: false,
                        render: false,
                    };
                }
                let mut placement = None;
                if should_render_for_mode(&self.mode_info) {
                    self.renderable_mode_seen = true;
                    placement = self.position_self();
                }
                UpdateEffects { hide: false, placement, restore_focus: false, render: true }
            },
            PluginEvent::TabUpdate(tabs) => {
                let mut placement = None;
                match find_active(&tabs) {
                    Some(i) => {
                        self.active_rows = tabs[i].viewport_rows;
                        self.active_cols = tabs[i].viewport_columns;
                        placement = self.position_self();
                    },
                    None => {},
                }
                UpdateEffects { hide: false, placement, restore_focus: false, render: true }
            },
            PluginEvent::PaneUpdate => {
                let placement = self.position_self();
                UpdateEffects { hide: false, placement, restore_focus: false, render: true }
            },
            PluginEvent::PermissionRequestResult(PermissionStatus::Granted) => {
                self.permissions_granted = true;
                let placement = self.position_self();
                UpdateEffects { hide: false, placement, restore_focus: true, render: true }
            },
            PluginEvent::PermissionRequestResult(PermissionStatus::Denied) => UpdateEffects {
                hide: false,
                placement: None,
                restore_focus: false,
                render: true,
            },
            PluginEvent::Visible(true) => {
                let placement = self.position_self();
                UpdateEffects { hide: false, placement, restore_focus: true, render: true }
            },
            PluginEvent::Visible(false) => UpdateEffects {
                hide: false,
                placement: None,
                restore_focus: false,
                render: false,
            },
            PluginEvent::Other => UpdateEffects {
                hide: false,
                placement: None,
                restore_focus: false,
                render: false,
            },
        }
    }

    /// The screen to draw in a pane of `rows` by `cols`: a cleared screen in
    /// the base mode, the overlay otherwise.
    pub fn render(&self, rows: usize, cols: usize) -> (screen: String)
        ensures
            screen@ == render_text_spec(*self, rows as int, cols as int),
    {
        if !should_render_for_mode(&self.mode_info) {
            return String::from_str("\x1b[2J\x1b[H");
        }
        let keymap = get_keymap_for_mode(&self.mode_info);
        render_overlay(keymap, self.permissions_granted, rows, cols)
    }
}

} // verus!
