use codex_plus::dialog::{
    tick_hover, HoverSlot,
    browse_button_rect, edit_height, edit_top, footer_button_rects, hover_anim_step,
    hover_still_active, CARD_RIGHT, edit_index_for_id, field_rects, wide_null, wide_text, CLIENT_HEIGHT, CLIENT_WIDTH,
};

#[test]
fn wide_null_terminates_with_zero() {
    let wide = wide_null("abc");
    assert_eq!(wide, vec!['a' as u16, 'b' as u16, 'c' as u16, 0]);
}

#[test]
fn client_dimensions_are_positive() {
    assert!(CLIENT_WIDTH > 0 && CLIENT_HEIGHT > 0);
}

#[test]
fn field_rects_are_within_client_bounds() {
    for (x, y, w, h) in field_rects() {
        assert!(x >= 0 && y >= 0);
        assert!(x + w <= CLIENT_WIDTH);
        assert!(y + h <= CLIENT_HEIGHT);
    }
}

#[test]
fn layout_values() {
    assert_eq!(CLIENT_WIDTH, 665);
    assert_eq!(CLIENT_HEIGHT, 427);
    let rects = field_rects();
    assert_eq!(rects[0], (178, 100, 452, 28));
    assert_eq!(rects[4], (178, 284, 376, 28));
}

#[test]
fn edit_ids_map_to_rows() {
    assert_eq!(edit_index_for_id(101), Some(0));
    assert_eq!(edit_index_for_id(105), Some(4));
    assert_eq!(edit_index_for_id(100), None);
    assert_eq!(edit_index_for_id(201), None);
}

#[test]
fn utf16_of_astral_characters() {
    assert_eq!(wide_text("a\u{1F600}"), "a\u{1F600}".encode_utf16().collect::<Vec<u16>>());
    assert_eq!(wide_text("é"), vec![0xE9]);
}

#[test]
fn control_layout() {
    assert_eq!(edit_height(10), 18);
    assert_eq!(edit_height(19), 21);
    assert_eq!(edit_height(40), 22);
    assert_eq!(edit_top(100, 22), 103);
    assert_eq!(edit_top(10, 31), 9);
    assert_eq!(edit_top(0, 60), -16);
    assert_eq!(browse_button_rect(), (565, 281, 68, 34));
    let (cancel, save) = footer_button_rects();
    assert_eq!(save, (CARD_RIGHT - 168, 367, 168, 36));
    assert_eq!(cancel, (359, 367, 96, 36));
}

#[test]
fn hover_fade_steps() {
    assert_eq!(hover_anim_step(0, true), 1);
    assert_eq!(hover_anim_step(6, true), 6);
    assert_eq!(hover_anim_step(6, false), 5);
    assert_eq!(hover_anim_step(0, false), 0);
    assert!(hover_still_active(false, 3));
    assert!(!hover_still_active(false, 0));
}

#[test]
fn hover_timer_stops_once_every_button_is_idle() {
    let mut slots = vec![
        HoverSlot { present: true, hovered: false, anim: 1 },
        HoverSlot { present: false, hovered: true, anim: 6 },
        HoverSlot { present: true, hovered: false, anim: 0 },
    ];
    assert!(!tick_hover(&mut slots, &[false, false, false]));
    assert_eq!(slots[0], HoverSlot { present: true, hovered: false, anim: 0 });
    assert_eq!(slots[1], HoverSlot { present: false, hovered: true, anim: 6 });
    assert!(tick_hover(&mut slots, &[false, false, true]));
    assert_eq!(slots[2], HoverSlot { present: true, hovered: true, anim: 1 });
    assert!(!tick_hover(&mut slots, &[false, false, false]));
    assert_eq!(slots[2], HoverSlot { present: true, hovered: false, anim: 0 });
}
