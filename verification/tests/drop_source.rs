use drag::codes::{DRAGDROP_S_CANCEL, DRAGDROP_S_DROP, DRAGDROP_S_USEDEFAULTCURSORS, S_OK};
use drag::drop_source::DropSource;

#[test]
fn escape_cancels_whatever_the_buttons() {
    let source = DropSource::new();
    assert_eq!(source.query_continue_drag(1, 1), DRAGDROP_S_CANCEL);
    assert_eq!(source.query_continue_drag(1, 0), DRAGDROP_S_CANCEL);
    assert_eq!(source.query_continue_drag(-1, 3), DRAGDROP_S_CANCEL);
    assert_eq!(source.query_continue_drag(256, 0), DRAGDROP_S_CANCEL);
}

#[test]
fn releasing_the_left_button_drops() {
    let source = DropSource::new();
    assert_eq!(source.query_continue_drag(0, 0), DRAGDROP_S_DROP);
    // The right button and the shift key are down, the left button is not.
    assert_eq!(source.query_continue_drag(0, 2), DRAGDROP_S_DROP);
    assert_eq!(source.query_continue_drag(0, 6), DRAGDROP_S_DROP);
}

#[test]
fn holding_the_left_button_drags_on() {
    let source = DropSource::new();
    assert_eq!(source.query_continue_drag(0, 1), S_OK);
    assert_eq!(source.query_continue_drag(0, 13), S_OK);
    assert_eq!(source.query_continue_drag(0, u32::MAX), S_OK);
}

#[test]
fn the_cursor_is_left_to_ole() {
    let source = DropSource::new();
    assert_eq!(source.give_feedback(0), DRAGDROP_S_USEDEFAULTCURSORS);
    assert_eq!(source.give_feedback(2), DRAGDROP_S_USEDEFAULTCURSORS);
}
