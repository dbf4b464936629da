use mastermind::game::{Game, ValidationField};
use mastermind::guess::{Colors, InputEvent};

fn palette_steps(c: Colors) -> usize {
    match c {
        Colors::Red => 1,
        Colors::Blue => 2,
        Colors::Green => 3,
        Colors::Yellow => 4,
        Colors::Black => 5,
        Colors::White => 6,
        _ => panic!("not a selectable color"),
    }
}

fn new_game(number_of_guesses: usize) -> Game {
    Game::new(24, 39, number_of_guesses, false).expect("the default window fits six guesses")
}

fn set_secret(game: &mut Game, colors: [Colors; 4]) {
    for (slot, color) in game.secret.iter_mut().zip(colors) {
        slot.color = color;
    }
}

/// Types a full guess through input events and lets the game process it.
fn submit_guess(game: &mut Game, colors: [Colors; 4]) {
    for color in colors {
        for _ in 0..palette_steps(color) {
            game.key_pressed(InputEvent::CycleUp);
        }
        game.key_pressed(InputEvent::MoveRight);
    }
    game.key_pressed(InputEvent::Submit);
    game.update_guess_input_field();
}

#[test]
fn window_too_small_is_a_config_error() {
    let err = match Game::new(10, 10, 6, false) {
        Err(e) => e,
        Ok(_) => panic!("a 10 x 10 window must be refused"),
    };
    assert_eq!(err.min_width, 24);
    assert_eq!(err.min_height, 39);
    // six guesses need exactly the default 24 x 39 board
    assert!(Game::new(24, 39, 6, false).is_ok());
    assert!(Game::new(24, 38, 6, false).is_err());
    assert!(Game::new(23, 39, 6, false).is_err());
    // fewer guesses fit a shorter window
    assert!(Game::new(24, 19, 2, false).is_ok());
}

#[test]
fn fresh_round_is_blank_and_masked() {
    let game = new_game(6);
    assert_eq!(game.guess_pointer, 0);
    assert!(!game.game_won);
    assert!(!game.game_over);
    assert_eq!(game.secret.len(), 4);
    for slot in &game.secret {
        assert!(!slot.show_color);
        assert_ne!(slot.color, Colors::Empty);
        assert_ne!(slot.color, Colors::Secret);
    }
    assert_eq!(game.guessed.len(), 6);
    assert_eq!(game.guess_validation.len(), 6);
    for row in &game.guessed {
        assert!(row.iter().all(|f| f.color == Colors::Empty));
    }
    for row in &game.guess_validation {
        assert!(row.pins.iter().all(|p| *p == Colors::Empty));
    }
    // the input field sits below the last guess row
    assert_eq!(game.guess_input_field.gui_position_x, 1);
    assert_eq!(game.guess_input_field.gui_position_y, 36);
}

#[test]
fn debug_mode_reveals_the_secret_immediately() {
    let game = Game::new(24, 39, 6, true).unwrap();
    assert!(game.secret.iter().all(|slot| slot.show_color));
}

#[test]
fn submission_is_scored_and_recorded() {
    let mut game = new_game(6);
    set_secret(&mut game, [Colors::Red, Colors::Blue, Colors::Green, Colors::Red]);
    submit_guess(&mut game, [Colors::Red, Colors::Red, Colors::Yellow, Colors::Blue]);
    assert_eq!(game.guess_pointer, 1);
    assert!(!game.game_won);
    assert!(!game.game_over);
    let row: Vec<Colors> = game.guessed[0].iter().map(|f| f.color).collect();
    assert_eq!(row, vec![Colors::Red, Colors::Red, Colors::Yellow, Colors::Blue]);
    // one black and two white pins, black first
    assert_eq!(
        game.guess_validation[0].pins,
        vec![Colors::Black, Colors::White, Colors::White, Colors::Empty]
    );
    // the input field is handed back cleared
    assert!(game.guess_input_field.fields.iter().all(|c| *c == Colors::Empty));
    assert_eq!(game.guess_input_field.current_position, 0);
    assert!(!game.guess_input_field.disabled);
}

#[test]
fn winning_guess_ends_the_round_immediately() {
    let mut game = new_game(6);
    set_secret(&mut game, [Colors::Black, Colors::White, Colors::Red, Colors::Red]);
    submit_guess(&mut game, [Colors::Black, Colors::White, Colors::Red, Colors::Red]);
    assert!(game.game_won);
    assert!(!game.game_over);
    assert_eq!(game.guess_pointer, 1);
    assert_eq!(game.guess_validation[0].pins, vec![Colors::Black; 4]);
    assert!(game.secret.iter().all(|slot| slot.show_color));
    assert!(game.guess_input_field.disabled);
    // with five attempts to spare, no further guess is taken
    submit_guess(&mut game, [Colors::Red, Colors::Red, Colors::Red, Colors::Red]);
    assert_eq!(game.guess_pointer, 1);
    assert!(game.game_won);
}

#[test]
fn six_losses_end_a_six_attempt_round() {
    let mut game = new_game(6);
    set_secret(&mut game, [Colors::Red, Colors::Blue, Colors::Green, Colors::Yellow]);
    for turn in 1..=6 {
        submit_guess(&mut game, [Colors::Black, Colors::Black, Colors::White, Colors::White]);
        assert_eq!(game.guess_pointer, turn);
        assert!(!game.game_won);
        assert_eq!(game.game_over, turn == 6);
    }
    // the round is lost and the secret fully revealed
    assert!(game.game_over);
    assert!(game.secret.iter().all(|slot| slot.show_color));
    assert!(game.guess_input_field.disabled);
    // a seventh attempt is ignored entirely
    submit_guess(&mut game, [Colors::Red, Colors::Blue, Colors::Green, Colors::Yellow]);
    assert_eq!(game.guess_pointer, 6);
    assert!(game.game_over);
    assert!(!game.game_won);
}

#[test]
fn last_attempt_can_still_win() {
    let mut game = new_game(2);
    set_secret(&mut game, [Colors::Red, Colors::Red, Colors::Red, Colors::Red]);
    submit_guess(&mut game, [Colors::Blue, Colors::Blue, Colors::Blue, Colors::Blue]);
    assert!(!game.game_over);
    submit_guess(&mut game, [Colors::Red, Colors::Red, Colors::Red, Colors::Red]);
    assert!(game.game_won);
    assert!(!game.game_over);
}

#[test]
fn restart_fully_resets_the_round() {
    let mut game = new_game(6);
    set_secret(&mut game, [Colors::Green, Colors::Green, Colors::Green, Colors::Green]);
    submit_guess(&mut game, [Colors::Green, Colors::Green, Colors::Green, Colors::Green]);
    assert!(game.game_won);
    game.key_pressed(InputEvent::Restart);
    assert_eq!(game.guess_pointer, 0);
    assert!(!game.game_won);
    assert!(!game.game_over);
    for row in &game.guessed {
        assert!(row.iter().all(|f| f.color == Colors::Empty));
    }
    for row in &game.guess_validation {
        assert!(row.pins.iter().all(|p| *p == Colors::Empty));
    }
    assert!(game.secret.iter().all(|slot| !slot.show_color));
    assert!(!game.guess_input_field.disabled);
    assert!(game.guess_input_field.fields.iter().all(|c| *c == Colors::Empty));
    assert_eq!(game.guess_input_field.current_position, 0);
    // and the new round is playable again
    set_secret(&mut game, [Colors::Red, Colors::Red, Colors::Red, Colors::Red]);
    submit_guess(&mut game, [Colors::Blue, Colors::Blue, Colors::Blue, Colors::Blue]);
    assert_eq!(game.guess_pointer, 1);
}

#[test]
fn scoring_through_the_game_matches_the_engine() {
    let mut game = new_game(6);
    set_secret(&mut game, [Colors::Red, Colors::Red, Colors::Blue, Colors::Green]);
    let guess = vec![Colors::Blue, Colors::Green, Colors::Red, Colors::Red];
    assert_eq!(game.check_guess_against_secret(&guess), (0, 4));
    let exact = vec![Colors::Red, Colors::Red, Colors::Blue, Colors::Green];
    assert_eq!(game.check_guess_against_secret(&exact), (4, 0));
}

#[test]
fn tick_without_pending_submit_changes_nothing() {
    let mut game = new_game(6);
    set_secret(&mut game, [Colors::Red, Colors::Red, Colors::Red, Colors::Red]);
    game.key_pressed(InputEvent::CycleUp);
    game.update_guess_input_field();
    game.update_guess_input_field();
    assert_eq!(game.guess_pointer, 0);
    assert_eq!(game.guess_input_field.fields[0], Colors::Red);
}

#[test]
fn set_pins_orders_black_white_empty() {
    let mut field = ValidationField { x: 0, y: 0, pins: Vec::new() };
    field.set_pins(2, 1);
    assert_eq!(field.pins, vec![Colors::Black, Colors::Black, Colors::White, Colors::Empty]);
    field.set_pins(0, 0);
    assert_eq!(field.pins, vec![Colors::Empty; 4]);
    field.set_pins(0, 4);
    assert_eq!(field.pins, vec![Colors::White; 4]);
    field.set_pins(4, 0);
    assert_eq!(field.pins, vec![Colors::Black; 4]);
}
