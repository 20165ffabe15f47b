use zwk::labels::{action_label, action_sequence_label, plugin_location_label, resize_label};
use zwk::layout::{bottom_aligned_y, floating_pane_dimensions};
use zwk::model::{Action, Direction, InputMode, Resize, SearchDirection};
use zwk::order::{key_sort_value, sort_overlay_rows};
use zwk::plugin::{
    get_keymap_for_mode, ModeView, PermissionStatus, Placement, PluginEvent, TabView,
    WhichKeyHints,
};
use zwk::render::{border_bottom, border_top, render_hint_line, render_overlay};
use zwk::rows::{fit_plain, key_column_width, overlay_content_width, overlay_rows};

fn label(action: Action) -> Option<String> {
    action_label(&action)
}

fn row(key: &str, description: &str) -> (String, String) {
    (key.to_owned(), description.to_owned())
}

fn keys(rows: &[(String, String)]) -> Vec<&str> {
    rows.iter().map(|(key, _)| key.as_str()).collect()
}

#[test]
fn labels_modes_resizes_and_directions() {
    assert_eq!(
        label(Action::SwitchModeForAllClients { input_mode: InputMode::EnterSearch }).as_deref(),
        Some("all clients: Enter search mode")
    );
    assert_eq!(
        label(Action::SwitchToMode { input_mode: InputMode::RenamePane }).as_deref(),
        Some("Rename pane mode")
    );
    assert_eq!(resize_label(Resize::Increase, Some(Direction::Left)), "increase left");
    assert_eq!(resize_label(Resize::Decrease, None), "decrease size");
    assert_eq!(
        label(Action::Resize { resize: Resize::Decrease, direction: Some(Direction::Down) })
            .as_deref(),
        Some("decrease down")
    );
    assert_eq!(label(Action::MovePane { direction: None }).as_deref(), Some("move pane"));
    assert_eq!(
        label(Action::MovePane { direction: Some(Direction::Up) }).as_deref(),
        Some("move pane up")
    );
    assert_eq!(label(Action::NewTiledPane { direction: None }).as_deref(), Some("new pane"));
    assert_eq!(
        label(Action::MoveFocusOrTab { direction: Direction::Right }).as_deref(),
        Some("focus/tab right")
    );
    assert_eq!(
        label(Action::Search { direction: SearchDirection::Up }).as_deref(),
        Some("search up")
    );
    assert_eq!(label(Action::HideFloatingPanes).as_deref(), Some("close overlay"));
}

#[test]
fn labels_tab_numbers_in_decimal() {
    assert_eq!(label(Action::GoToTab { index: 0 }).as_deref(), Some("go to tab 0"));
    assert_eq!(label(Action::GoToTab { index: 120 }).as_deref(), Some("go to tab 120"));
    assert_eq!(
        label(Action::GoToTab { index: u32::MAX }).as_deref(),
        Some("go to tab 4294967295")
    );
}

#[test]
fn labels_plugins_by_file_name() {
    assert_eq!(
        plugin_location_label("file:/home/me/plugins/zellij-which_key.wasm"),
        "zellij which key"
    );
    assert_eq!(plugin_location_label("zellij:session-manager"), "zellij:session manager");
    assert_eq!(plugin_location_label("file:plugin.wasm"), "plugin");
    assert_eq!(plugin_location_label("file:/a/b/"), "");
    assert_eq!(plugin_location_label("https://x/y.wasm.bak"), "y.wasm.bak");
    assert_eq!(plugin_location_label("file:"), "");
    assert_eq!(
        label(Action::LaunchOrFocusPlugin { location: "file:/p/status-bar.wasm".to_owned() })
            .as_deref(),
        Some("status bar")
    );
}

#[test]
fn labels_pipes_by_name_then_payload() {
    assert_eq!(
        label(Action::KeybindPipe {
            name: Some("my_pipe-name".to_owned()),
            payload: Some("x".to_owned())
        })
        .as_deref(),
        Some("my pipe name")
    );
    assert_eq!(
        label(Action::CliPipe { name: None, payload: Some("pay-load".to_owned()) }).as_deref(),
        Some("pay load")
    );
    assert_eq!(
        label(Action::KeybindPipe { name: None, payload: None }).as_deref(),
        Some("pipe")
    );
}

#[test]
fn labels_other_actions_by_their_text_and_no_op_by_nothing() {
    assert_eq!(label(Action::Other { text: "Copy".to_owned() }).as_deref(), Some("Copy"));
    assert_eq!(label(Action::NoOp), None);
}

#[test]
fn sequences_without_hints_have_no_label() {
    assert_eq!(action_sequence_label(&[]), None);
    assert_eq!(
        action_sequence_label(&[
            Action::NoOp,
            Action::SwitchToMode { input_mode: InputMode::Locked }
        ]),
        None
    );
    assert_eq!(
        action_sequence_label(&[
            Action::ScrollUp,
            Action::NoOp,
            Action::ScrollDown,
            Action::SwitchToMode { input_mode: InputMode::Locked },
            Action::Detach,
        ])
        .as_deref(),
        Some("scroll up → scroll down → detach")
    );
}

#[test]
fn sort_keys_trim_lower_and_group() {
    assert_eq!(key_sort_value("  Ctrl A  "), (1, 255, "ctrl a".to_owned()));
    assert_eq!(key_sort_value("7"), (0, 7, "7".to_owned()));
    assert_eq!(key_sort_value("←"), (2, 255, "←".to_owned()));
    assert_eq!(key_sort_value(""), (2, 255, String::new()));
    assert_eq!(key_sort_value("\u{3000}x\t"), (1, 255, "x".to_owned()));
    assert_eq!(key_sort_value("ÄB"), (2, 255, "Äb".to_owned()));
}

#[test]
fn sorting_is_stable_for_equal_keys() {
    let mut rows = vec![row("B", "first"), row("b", "second"), row("A", "third")];
    sort_overlay_rows(&mut rows);
    assert_eq!(rows, vec![row("A", "third"), row("B", "first"), row("b", "second")]);
}

#[test]
fn sorting_orders_digits_then_letters_then_the_rest() {
    let mut rows = vec![row("↵", "a"), row("z", "b"), row("10", "c"), row("9", "d"), row("1", "e")];
    sort_overlay_rows(&mut rows);
    assert_eq!(keys(&rows), vec!["1", "10", "9", "z", "↵"]);
}

#[test]
fn overlay_rows_follow_the_keymap_labels() {
    let keymap = vec![
        ("b".to_owned(), vec![Action::NoOp]),
        ("a".to_owned(), vec![Action::CloseTab]),
    ];
    assert_eq!(overlay_rows(&keymap, true), vec![row("a", "close tab")]);
    assert_eq!(
        overlay_rows(&keymap, false),
        vec![
            row("!", "waiting for Zellij permissions"),
            row("↵", "approve prompt or cache permissions")
        ]
    );
}

#[test]
fn column_widths() {
    assert_eq!(key_column_width(&[]), 2);
    assert_eq!(overlay_content_width(&[]), 4);
    let rows = vec![row("ab", "x"), row("a", "hello")];
    assert_eq!(key_column_width(&rows), 4);
    assert_eq!(overlay_content_width(&rows), 11);
}

#[test]
fn fitting_cuts_characters() {
    assert_eq!(fit_plain("héllo", 3), "hél");
    assert_eq!(fit_plain("abc", 0), "");
    assert_eq!(fit_plain("abc", 10), "abc");
}

#[test]
fn pane_dimensions_bounded_by_the_tab() {
    assert_eq!(floating_pane_dimensions(4, 10, 5, 5), None);
    assert_eq!(floating_pane_dimensions(10, 2, 5, 5), None);
    assert_eq!(floating_pane_dimensions(5, 3, 0, 0), Some((3, 3)));
    assert_eq!(floating_pane_dimensions(120, 40, 100, 50), Some((102, 40)));
    assert_eq!(floating_pane_dimensions(120, 40, 3, 0), Some((26, 3)));
    assert_eq!(bottom_aligned_y(2, 5), 0);
}

#[test]
fn hint_lines_fill_their_row() {
    assert_eq!(
        render_hint_line("p", "Pane mode", 5, 20),
        "\x1b[7m p \x1b[0m    Pane mode    "
    );
    assert_eq!(render_hint_line("p", "Pane mode", 3, 8), "\x1b[7m p \x1b[0m  Pan");
    let line = render_hint_line("Ctrl a", "detach", 8, 30);
    let visible = line.replace("\x1b[7m", "").replace("\x1b[0m", "");
    assert_eq!(visible.chars().count(), 30);
}

#[test]
fn borders_span_the_columns() {
    assert_eq!(border_top(5), "┌───┐");
    assert_eq!(border_bottom(1), "└┘");
}

#[test]
fn overlay_screens() {
    let keymap = vec![(
        "p".to_owned(),
        vec![Action::SwitchToMode { input_mode: InputMode::Pane }],
    )];
    assert_eq!(render_overlay(&keymap, true, 1, 18), "\x1b[2J\x1b[H");
    assert_eq!(render_overlay(&keymap, true, 18, 1), "\x1b[2J\x1b[H");
    let expected = format!(
        "\x1b[2J\x1b[H┌{}┐\n│\x1b[7m p \x1b[0m  Pane mode  │\n└{}┘",
        "─".repeat(16),
        "─".repeat(16)
    );
    assert_eq!(render_overlay(&keymap, true, 3, 18), expected);
    let no_room = format!("\x1b[2J\x1b[H┌{}┐\n└{}┘", "─".repeat(16), "─".repeat(16));
    assert_eq!(render_overlay(&keymap, true, 2, 18), no_room);
}

fn pane_keymap() -> ModeView {
    ModeView {
        mode: InputMode::Pane,
        base_mode: Some(InputMode::Locked),
        keybinds: vec![
            (
                InputMode::Pane,
                vec![("p".to_owned(), vec![Action::SwitchToMode { input_mode: InputMode::Normal }])],
            ),
            (InputMode::Pane, vec![("q".to_owned(), vec![Action::Quit])]),
        ],
    }
}

#[test]
fn keymap_is_the_first_entry_of_the_mode() {
    let mode_info = pane_keymap();
    let keymap = get_keymap_for_mode(&mode_info);
    assert_eq!(keymap.len(), 1);
    assert_eq!(keymap[0].0, "p");
    let other = ModeView { mode: InputMode::Tmux, base_mode: None, keybinds: Vec::new() };
    assert!(get_keymap_for_mode(&other).is_empty());
}

#[test]
fn plugin_places_hides_and_remembers() {
    let mut plugin = WhichKeyHints::new();
    let fx = plugin.update(PluginEvent::ModeUpdate(pane_keymap()));
    assert!(!fx.hide && fx.render && fx.placement.is_none());
    assert!(plugin.renderable_mode_seen);

    let fx = plugin.update(PluginEvent::TabUpdate(vec![
        TabView { active: false, viewport_rows: 10, viewport_columns: 10 },
        TabView { active: true, viewport_rows: 40, viewport_columns: 120 },
        TabView { active: true, viewport_rows: 5, viewport_columns: 5 },
    ]));
    assert_eq!((plugin.active_rows, plugin.active_cols), (40, 120));
    assert_eq!(fx.placement, Some(Placement { x: 76, y: 36, width: 42, height: 4 }));

    let fx = plugin.update(PluginEvent::PermissionRequestResult(PermissionStatus::Granted));
    assert!(plugin.permissions_granted && fx.restore_focus && fx.render);
    let placement = fx.placement.unwrap();
    assert_eq!(placement, Placement { x: 92, y: 37, width: 26, height: 3 });
    assert_eq!(placement.x + placement.width + 2, 120);
    assert_eq!(placement.y + placement.height, 40);

    let fx = plugin.update(PluginEvent::PermissionRequestResult(PermissionStatus::Denied));
    assert!(fx.render && !fx.hide && fx.placement.is_none() && !fx.restore_focus);
    assert!(plugin.permissions_granted);

    let fx = plugin.update(PluginEvent::Visible(true));
    assert!(fx.restore_focus && fx.render && fx.placement.is_some());
    assert!(!plugin.update(PluginEvent::Visible(false)).render);
    assert!(!plugin.update(PluginEvent::Other).render);
    assert!(plugin.update(PluginEvent::PaneUpdate).placement.is_some());

    let base = ModeView { mode: InputMode::Locked, base_mode: Some(InputMode::Locked), keybinds: Vec::new() };
    let fx = plugin.update(PluginEvent::ModeUpdate(base));
    assert!(fx.hide && !fx.render && fx.placement.is_none());
    assert!(plugin.renderable_mode_seen);
    assert_eq!(plugin.render(10, 30), "\x1b[2J\x1b[H");
}

#[test]
fn base_mode_before_any_other_mode_does_not_hide() {
    let mut plugin = WhichKeyHints::new();
    let base = ModeView { mode: InputMode::Locked, base_mode: Some(InputMode::Locked), keybinds: Vec::new() };
    let fx = plugin.update(PluginEvent::ModeUpdate(base));
    assert!(!fx.hide && fx.render && fx.placement.is_none());
    assert!(!plugin.renderable_mode_seen);
}

#[test]
fn plugin_draws_its_rows_outside_the_base_mode() {
    let mut plugin = WhichKeyHints::new();
    plugin.update(PluginEvent::ModeUpdate(pane_keymap()));
    plugin.update(PluginEvent::PermissionRequestResult(PermissionStatus::Granted));
    let expected = format!(
        "\x1b[2J\x1b[H┌{}┐\n│\x1b[7m p \x1b[0m  Normal mode  │\n└{}┘",
        "─".repeat(18),
        "─".repeat(18)
    );
    assert_eq!(plugin.render(3, 20), expected);
}
