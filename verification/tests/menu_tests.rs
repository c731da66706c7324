use bare_metal::display::Command;
use bare_metal::keys::Key;
use bare_metal::menu::{
    MenuState, CPU_REPORT_INDEX, IMAGE_INDEX, MENU_FIRST, MENU_LAST, POWER_OFF_INDEX,
    REBOOT_INDEX, SELECTOR_BLANK, SELECTOR_COLUMN, SELECTOR_GLYPH,
};

fn browsing_at(index: u8) -> MenuState {
    MenuState {
        selected_index: index,
        awaiting_acknowledgement: false,
        display_mode_dirty: false,
    }
}

#[test]
fn new_state_browses_at_first_entry() {
    let s = MenuState::new();
    assert_eq!(s.selected_index, MENU_FIRST);
    assert!(!s.awaiting_acknowledgement);
    assert!(!s.display_mode_dirty);
}

#[test]
fn down_three_times_lands_on_last_then_clamps() {
    let mut s = MenuState::new();
    for _ in 0..3 {
        s.handle_key(Key::ArrowDown);
    }
    assert_eq!(s.selected_index, MENU_FIRST + 3);
    assert_eq!(MENU_FIRST + 3, MENU_LAST);
    s.handle_key(Key::ArrowDown);
    assert_eq!(s.selected_index, MENU_FIRST + 3);
}

#[test]
fn up_at_first_entry_is_a_no_op() {
    let mut s = MenuState::new();
    let before = s;
    s.handle_key(Key::ArrowUp);
    assert_eq!(s, before);
}

#[test]
fn arrow_redraw_marks_exactly_the_selected_row() {
    let mut s = MenuState::new();
    let cmds = s.handle_key(Key::ArrowDown);
    assert_eq!(cmds.len(), 4);
    for (i, c) in cmds.iter().enumerate() {
        let expected_glyph = if MENU_FIRST + i as u8 == s.selected_index {
            SELECTOR_GLYPH
        } else {
            SELECTOR_BLANK
        };
        assert_eq!(
            *c,
            Command::WriteCell {
                column: SELECTOR_COLUMN,
                row: MENU_FIRST + i as u8,
                glyph: expected_glyph,
            }
        );
    }
    let markers = cmds
        .iter()
        .filter(|c| matches!(c, Command::WriteCell { glyph, .. } if *glyph == SELECTOR_GLYPH))
        .count();
    assert_eq!(markers, 1);
}

#[test]
fn confirm_on_report_entry_shows_report_and_awaits() {
    let mut s = browsing_at(CPU_REPORT_INDEX);
    let cmds = s.handle_key(Key::Char('\n'));
    assert_eq!(cmds, vec![Command::ClearScreen, Command::ShowCpuReport]);
    assert!(s.awaiting_acknowledgement);
    assert!(!s.display_mode_dirty);
    assert_eq!(s.selected_index, CPU_REPORT_INDEX);
}

#[test]
fn confirm_on_image_entry_enters_graphics_and_blits() {
    let mut s = browsing_at(IMAGE_INDEX);
    let cmds = s.handle_key(Key::Char('\n'));
    assert_eq!(
        cmds,
        vec![Command::ClearScreen, Command::SetGraphicsMode, Command::BlitImage]
    );
    assert!(s.awaiting_acknowledgement);
    assert!(s.display_mode_dirty);
}

#[test]
fn confirm_on_reboot_entry_emits_reboot_last() {
    let mut s = browsing_at(REBOOT_INDEX);
    let cmds = s.handle_key(Key::Char('\n'));
    assert_eq!(cmds, vec![Command::ClearScreen, Command::Reboot]);
    assert!(!s.awaiting_acknowledgement);
}

#[test]
fn confirm_on_power_off_entry_is_best_effort() {
    let mut s = browsing_at(POWER_OFF_INDEX);
    let cmds = s.handle_key(Key::Char('\n'));
    assert_eq!(cmds, vec![Command::ClearScreen, Command::PowerOff]);
    assert!(!s.awaiting_acknowledgement);
    assert_eq!(s.selected_index, POWER_OFF_INDEX);
}

#[test]
fn dismissing_text_result_keeps_the_selection() {
    let mut s = browsing_at(CPU_REPORT_INDEX);
    s.handle_key(Key::Char('\n'));
    let cmds = s.handle_key(Key::Char('\n'));
    assert_eq!(cmds, vec![Command::ClearScreen, Command::DrawMenu]);
    assert!(!s.awaiting_acknowledgement);
    assert!(!s.display_mode_dirty);
    assert_eq!(s.selected_index, CPU_REPORT_INDEX);
}

#[test]
fn dismissing_video_result_restores_text_mode_and_resets_selection() {
    let mut s = browsing_at(IMAGE_INDEX);
    s.handle_key(Key::Char('\n'));
    let cmds = s.handle_key(Key::Char('\n'));
    assert_eq!(
        cmds,
        vec![
            Command::ClearScreen,
            Command::SetTextMode,
            Command::DisableCursor,
            Command::ClearScreen,
            Command::DrawMenu,
        ]
    );
    assert!(!s.awaiting_acknowledgement);
    assert!(!s.display_mode_dirty);
    assert_eq!(s.selected_index, MENU_FIRST);
}

#[test]
fn other_character_is_ignored_entirely() {
    let mut s = browsing_at(IMAGE_INDEX);
    let before = s;
    let cmds = s.handle_key(Key::Char('a'));
    assert!(cmds.is_empty());
    assert_eq!(s, before);
}

#[test]
fn other_character_while_showing_result_is_ignored_entirely() {
    let mut s = browsing_at(CPU_REPORT_INDEX);
    s.handle_key(Key::Char('\n'));
    let before = s;
    let cmds = s.handle_key(Key::Char('x'));
    assert!(cmds.is_empty());
    assert_eq!(s, before);
}

#[test]
fn other_raw_key_changes_nothing() {
    let mut s = browsing_at(REBOOT_INDEX);
    let before = s;
    let cmds = s.handle_key(Key::OtherRaw);
    assert!(cmds.is_empty());
    assert_eq!(s, before);
}

#[test]
fn arrows_are_ignored_by_no_state_but_move_the_selection_anywhere() {
    let mut s = MenuState {
        selected_index: MENU_LAST,
        awaiting_acknowledgement: true,
        display_mode_dirty: false,
    };
    s.handle_key(Key::ArrowUp);
    assert_eq!(s.selected_index, MENU_LAST - 1);
    assert!(s.awaiting_acknowledgement);
}
