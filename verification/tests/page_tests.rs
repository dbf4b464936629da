use mastermind::draw::to_coord_u32;
use mastermind::game::Game;
use mastermind::guess::InputEvent;
use mastermind::page_renderer::{MenuState, PageRenderer};

#[test]
fn start_page_closes_on_start() {
    let mut page = PageRenderer::new(true);
    assert!(page.is_open());
    assert_eq!(page.menu_state, MenuState::Start);
    let keep_round = page.key_pressed(InputEvent::StartOrClose);
    assert!(!page.is_open());
    assert!(!keep_round);
}

#[test]
fn closing_an_end_page_reports_the_finished_round() {
    let mut page = PageRenderer::new(false);
    page.open(MenuState::GameOver);
    assert!(page.is_open());
    let keep_round = page.key_pressed(InputEvent::StartOrClose);
    assert!(!page.is_open());
    assert!(keep_round);
    page.open(MenuState::GameWon);
    assert!(page.key_pressed(InputEvent::StartOrClose));
}

#[test]
fn help_pages_nest_and_unwind() {
    let mut page = PageRenderer::new(false);
    page.open(MenuState::PausedHelp);
    page.key_pressed(InputEvent::OpenGeneral);
    assert_eq!(page.menu_state, MenuState::PausedGeneral);
    // return backs out one level at a time
    page.key_pressed(InputEvent::Submit);
    assert_eq!(page.menu_state, MenuState::PausedHelp);
    assert!(page.is_open());
    page.key_pressed(InputEvent::Submit);
    assert!(!page.is_open());
}

#[test]
fn help_over_start_returns_to_start() {
    let mut page = PageRenderer::new(true);
    page.key_pressed(InputEvent::OpenHelp);
    assert_eq!(page.menu_state, MenuState::PausedHelp);
    page.key_pressed(InputEvent::Submit);
    assert_eq!(page.menu_state, MenuState::Start);
    assert!(page.is_open());
}

#[test]
fn general_info_needs_the_help_page_first() {
    let mut page = PageRenderer::new(true);
    page.key_pressed(InputEvent::OpenGeneral);
    assert_eq!(page.menu_state, MenuState::Start);
    // and the help key is ignored while on the general page
    page.key_pressed(InputEvent::OpenHelp);
    page.key_pressed(InputEvent::OpenGeneral);
    assert_eq!(page.menu_state, MenuState::PausedGeneral);
    page.key_pressed(InputEvent::OpenHelp);
    assert_eq!(page.menu_state, MenuState::PausedGeneral);
}

#[test]
fn open_page_consumes_game_input() {
    let mut game = Game::new(24, 39, 6, false).unwrap();
    game.page_renderer.open(MenuState::PausedHelp);
    game.key_pressed(InputEvent::CycleUp);
    assert!(game.guess_input_field.fields.iter().all(|c| *c == mastermind::guess::Colors::Empty));
    game.key_pressed(InputEvent::OpenGeneral);
    assert_eq!(game.page_renderer.menu_state, MenuState::PausedGeneral);
}

#[test]
fn help_key_opens_the_help_page() {
    let mut game = Game::new(24, 39, 6, false).unwrap();
    assert!(!game.page_renderer.is_open());
    game.key_pressed(InputEvent::OpenHelp);
    assert!(game.page_renderer.is_open());
    assert_eq!(game.page_renderer.menu_state, MenuState::PausedHelp);
}

#[test]
fn coords_scale_by_cell_size_and_clamp() {
    assert_eq!(to_coord_u32(0), 0);
    assert_eq!(to_coord_u32(-7), 0);
    assert_eq!(to_coord_u32(1), 15);
    assert_eq!(to_coord_u32(24), 360);
    assert_eq!(to_coord_u32(39), 585);
    // far beyond any real window the pixel count saturates
    assert_eq!(to_coord_u32(i32::MAX), u32::MAX);
}
