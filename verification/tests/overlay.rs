use zwk::labels::action_sequence_label;
use zwk::layout::{
    bottom_aligned_y, floating_pane_dimensions, FLOATING_FRAME_COLUMNS, FLOATING_FRAME_ROWS,
};
use zwk::model::{Action, Direction, InputMode};
use zwk::plugin::{should_hide_for_mode, should_render_for_mode, ModeView};
use zwk::render::{key_button, render_hint_line};
use zwk::rows::{key_column_width, overlay_content_width, overlay_rows, KEY_TEXT_PADDING};

#[test]
fn labels_common_actions() {
    assert_eq!(
        action_sequence_label(&[Action::SwitchToMode {
            input_mode: InputMode::Pane,
        }])
        .as_deref(),
        Some("Pane mode")
    );
    assert_eq!(
        action_sequence_label(&[Action::MoveFocus {
            direction: Direction::Left,
        }])
        .as_deref(),
        Some("focus left")
    );
    assert_eq!(
        action_sequence_label(&[Action::GoToTab { index: 3 }]).as_deref(),
        Some("go to tab 3")
    );
    assert_eq!(
        action_sequence_label(&[Action::NewStackedPane]).as_deref(),
        Some("new stacked pane")
    );
}

#[test]
fn labels_action_sequences_vertically() {
    assert_eq!(
        action_sequence_label(&[
            Action::NewPane {
                direction: Some(Direction::Right),
            },
            Action::SwitchToMode {
                input_mode: InputMode::Normal,
            },
        ])
        .as_deref(),
        Some("split right → Normal mode")
    );
}

#[test]
fn rows_keep_key_and_description_separate() {
    let rows = overlay_rows(
        &[(
            "p".to_owned(),
            vec![Action::SwitchToMode {
                input_mode: InputMode::Pane,
            }],
        )],
        true,
    );

    assert_eq!(rows, vec![("p".to_owned(), "Pane mode".to_owned())]);
    assert_eq!(key_button("p"), " p ");
    let content_width = overlay_content_width(&rows);
    assert_eq!(
        render_hint_line("p", "Pane mode", key_column_width(&rows), content_width),
        "\x1b[7m p \x1b[0m  Pane mode"
    );
}

#[test]
fn locked_cleanup_action_is_not_rendered_as_primary_hint() {
    assert_eq!(
        action_sequence_label(&[
            Action::SwitchToMode {
                input_mode: InputMode::Locked,
            },
            Action::GoToTab { index: 1 },
        ])
        .as_deref(),
        Some("go to tab 1")
    );
    assert_eq!(
        action_sequence_label(&[Action::SwitchToMode {
            input_mode: InputMode::Locked,
        }]),
        None
    );
}

#[test]
fn rows_sort_digits_before_letters_and_hide_close_only_bindings() {
    let rows = overlay_rows(
        &[
            ("b".to_owned(), vec![Action::Quit]),
            ("2".to_owned(), vec![Action::GoToTab { index: 2 }]),
            (
                "a".to_owned(),
                vec![Action::SwitchToMode {
                    input_mode: InputMode::Pane,
                }],
            ),
            ("1".to_owned(), vec![Action::GoToTab { index: 1 }]),
            (
                "x".to_owned(),
                vec![Action::SwitchToMode {
                    input_mode: InputMode::Locked,
                }],
            ),
        ],
        true,
    );

    assert_eq!(
        rows.iter().map(|(key, _)| key.as_str()).collect::<Vec<_>>(),
        vec!["1", "2", "a", "b"]
    );
}

#[test]
fn overlay_dimensions_fit_visible_content() {
    let rows = vec![
        ("p".to_owned(), "Pane mode".to_owned()),
        ("Ctrl SPACE".to_owned(), "close overlay".to_owned()),
    ];
    let content_width = overlay_content_width(&rows);

    assert_eq!(
        key_column_width(&rows),
        "Ctrl SPACE".chars().count() + KEY_TEXT_PADDING
    );
    assert_eq!(
        floating_pane_dimensions(120, 40, content_width, rows.len()),
        Some((
            content_width + FLOATING_FRAME_COLUMNS,
            rows.len() + FLOATING_FRAME_ROWS
        ))
    );
    assert_eq!(bottom_aligned_y(40, rows.len() + FLOATING_FRAME_ROWS), 36);
}

#[test]
fn base_mode_controls_overlay_visibility_like_zjstatus_hints() {
    let locked_mode = ModeView {
        mode: InputMode::Locked,
        base_mode: Some(InputMode::Locked),
        keybinds: Vec::new(),
    };
    let normal_mode = ModeView {
        mode: InputMode::Normal,
        base_mode: Some(InputMode::Locked),
        keybinds: Vec::new(),
    };
    let pane_mode = ModeView {
        mode: InputMode::Pane,
        base_mode: Some(InputMode::Locked),
        keybinds: Vec::new(),
    };

    assert!(!should_hide_for_mode(&locked_mode, false));
    assert!(should_render_for_mode(&normal_mode));
    assert!(should_render_for_mode(&pane_mode));
    assert!(should_hide_for_mode(&locked_mode, true));
}

#[test]
fn denied_permissions_show_help_rows() {
    let rows = overlay_rows(&[], false);

    assert!(rows.iter().any(|(_, label)| label.contains("permissions")));
}
