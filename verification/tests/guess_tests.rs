use mastermind::guess::{Colors, GuessInputField, InputEvent};

#[test]
fn color_list_is_the_selectable_palette() {
    let list = Colors::create_color_list();
    assert_eq!(
        list,
        vec![Colors::Red, Colors::Blue, Colors::Green, Colors::Yellow, Colors::Black,
            Colors::White]
    );
    assert!(!list.contains(&Colors::Empty));
    assert!(!list.contains(&Colors::Secret));
}

#[test]
fn new_field_is_blank_and_enabled() {
    let field = GuessInputField::new(1, 31);
    assert_eq!(*field.get_guess(), vec![Colors::Empty; 4]);
    assert_eq!(field.current_position, 0);
    assert!(!field.ready);
    assert!(!field.get_send_guess());
    assert!(!field.disabled);
    assert_eq!(field.gui_position_x, 1);
    assert_eq!(field.gui_position_y, 31);
}

#[test]
fn cursor_clamps_at_both_ends() {
    let mut field = GuessInputField::new(0, 0);
    // already at the leftmost slot: moving left over and over changes nothing
    for _ in 0..5 {
        field.move_current_position(-1);
        assert_eq!(field.current_position, 0);
    }
    for _ in 0..4 {
        field.move_current_position(1);
    }
    assert_eq!(field.current_position, 4);
    // at the submit affordance: moving right over and over changes nothing
    for _ in 0..5 {
        field.move_current_position(1);
        assert_eq!(field.current_position, 4);
    }
    // unknown directions are ignored
    field.move_current_position(2);
    assert_eq!(field.current_position, 4);
}

#[test]
fn cycling_enters_the_palette_from_either_end() {
    let mut field = GuessInputField::new(0, 0);
    field.change_color(1);
    assert_eq!(field.get_guess()[0], Colors::Red);
    let mut other = GuessInputField::new(0, 0);
    other.change_color(-1);
    assert_eq!(other.get_guess()[0], Colors::White);
}

#[test]
fn cycling_wraps_around_the_palette() {
    let mut field = GuessInputField::new(0, 0);
    field.change_color(1);
    // walk forward through the whole palette and wrap back to Red
    let expected = [Colors::Blue, Colors::Green, Colors::Yellow, Colors::Black, Colors::White,
        Colors::Red];
    for c in expected {
        field.change_color(1);
        assert_eq!(field.get_guess()[0], c);
    }
    // one step back wraps to White again
    field.change_color(-1);
    assert_eq!(field.get_guess()[0], Colors::White);
}

#[test]
fn cycling_at_submit_affordance_is_a_no_op() {
    let mut field = GuessInputField::new(0, 0);
    for _ in 0..4 {
        field.move_current_position(1);
    }
    field.change_color(1);
    assert_eq!(*field.get_guess(), vec![Colors::Empty; 4]);
}

#[test]
fn ready_tracks_filled_slots() {
    let mut field = GuessInputField::new(0, 0);
    for _ in 0..3 {
        field.change_color(1);
        field.move_current_position(1);
        assert!(!field.ready);
    }
    field.change_color(1);
    assert!(field.ready);
}

#[test]
fn submit_needs_cursor_on_affordance_and_a_full_guess() {
    let mut field = GuessInputField::new(0, 0);
    field.change_color(1);
    field.send_guess();
    assert!(!field.get_send_guess());
    // full guess but cursor still on a slot: no submit
    for _ in 0..4 {
        field.change_color(1);
        field.move_current_position(1);
    }
    assert_eq!(field.current_position, 4);
    assert!(field.ready);
    field.send_guess();
    assert!(field.get_send_guess());
}

#[test]
fn incomplete_guess_cannot_be_submitted() {
    let mut field = GuessInputField::new(0, 0);
    field.change_color(1);
    for _ in 0..4 {
        field.move_current_position(1);
    }
    assert!(!field.ready);
    field.send_guess();
    assert!(!field.get_send_guess());
}

#[test]
fn disabled_field_ignores_every_event() {
    let mut field = GuessInputField::new(0, 0);
    field.disable_input();
    field.key_pressed(InputEvent::CycleUp);
    field.key_pressed(InputEvent::MoveRight);
    field.key_pressed(InputEvent::Submit);
    assert_eq!(*field.get_guess(), vec![Colors::Empty; 4]);
    assert_eq!(field.current_position, 0);
    assert!(!field.get_send_guess());
    field.enable_input();
    field.key_pressed(InputEvent::CycleUp);
    assert_eq!(field.get_guess()[0], Colors::Red);
}

#[test]
fn events_drive_the_field_like_the_methods() {
    let mut field = GuessInputField::new(0, 0);
    field.key_pressed(InputEvent::CycleUp);
    field.key_pressed(InputEvent::CycleUp);
    assert_eq!(field.get_guess()[0], Colors::Blue);
    field.key_pressed(InputEvent::CycleDown);
    assert_eq!(field.get_guess()[0], Colors::Red);
    field.key_pressed(InputEvent::MoveRight);
    assert_eq!(field.current_position, 1);
    field.key_pressed(InputEvent::MoveLeft);
    assert_eq!(field.current_position, 0);
}

#[test]
fn reset_clears_slots_cursor_and_flags() {
    let mut field = GuessInputField::new(0, 0);
    for _ in 0..4 {
        field.change_color(1);
        field.move_current_position(1);
    }
    field.send_guess();
    assert!(field.get_send_guess());
    field.reset_guess();
    assert_eq!(*field.get_guess(), vec![Colors::Empty; 4]);
    assert_eq!(field.current_position, 0);
    assert!(!field.ready);
    assert!(!field.get_send_guess());
    assert!(!field.disabled);
}

#[test]
fn update_recomputes_ready_and_blinks() {
    let mut field = GuessInputField::new(0, 0);
    assert_eq!(field.flash_timer, 4);
    assert!(field.flashing_visible);
    // timer counts 4 -> 3 -> 2 -> 1 -> 0 without toggling
    for expected in [3, 2, 1, 0] {
        field.update();
        assert_eq!(field.flash_timer, expected);
        assert!(field.flashing_visible);
    }
    // at zero the highlight toggles and the period restarts
    field.update();
    assert!(!field.flashing_visible);
    assert_eq!(field.flash_timer, 3);
    assert!(!field.ready);
}
