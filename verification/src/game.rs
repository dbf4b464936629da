//! The round state machine: the secret, the guess history with its pin
//! feedback, turn progression, and win/loss determination.

use rand::Rng;
use vstd::prelude::*;

verus! {

use crate::guess::{
    all_slots_filled,
    Colors,
    GuessInputField,
    InputEvent,
    input_field_steps,
    is_selectable,
    layout_unchanged,
    lemma_palette_contents,
    palette,
};
use crate::page_renderer::{MenuState, PageRenderer};
use crate::scoring::{all_selectable, exact_count, partial_count, score};

/// The largest supported number of guess rows: beyond this the board's row
/// coordinates could not fit an `i32` anyway, so no valid window exists.
pub const MAX_NUMBER_OF_GUESSES: usize = 400000000;

/// One slot of the hidden secret: its color, its board cell, and whether
/// the color is shown (before the round ends it is drawn masked).
#[derive(Clone, Copy)]
pub struct SecretField {
    pub x: i32,
    pub y: i32,
    pub color: Colors,
    pub show_color: bool,
}

impl SecretField {
    /// Reveals this slot's color.
    pub fn show_color(&mut self)
        ensures
            *final(self) == (SecretField { show_color: true, ..*old(self) }),
    {
        self.show_color = true;
    }
}

/// One slot of a submitted guess as it is kept on the board.
#[derive(Clone, Copy)]
pub struct GuessField {
    pub x: i32,
    pub y: i32,
    pub color: Colors,
}

/// The 2x2 pin display next to one guess row: black pins first, then white
/// pins, then empty cells.
#[derive(Clone)]
pub struct ValidationField {
    pub x: i32,
    pub y: i32,
    pub pins: Vec<Colors>,
}

/// The color of pin cell `i` when `black` black pins and `white` white
/// pins are shown: black pins fill the first cells, white pins follow, and
/// the rest stay empty.
pub open spec fn pin_color_at(i: int, black: int, white: int) -> Colors {
    if i < black {
        Colors::Black
    } else if i < black + white {
        Colors::White
    } else {
        Colors::Empty
    }
}

impl ValidationField {
    /// Fills the four pin cells for a score of `black_pins` black and
    /// `white_pins` white pins.
    pub fn set_pins(&mut self, black_pins: i32, white_pins: i32)
        requires
            0 <= black_pins,
            0 <= white_pins,
            black_pins + white_pins <= i32::MAX,
        ensures
            final(self).pins.len() == 4,
            forall|i: int|
                0 <= i < 4 ==> #[trigger] final(self).pins@[i] == pin_color_at(
                    i,
                    black_pins as int,
                    white_pins as int,
                ),
            final(self).x == old(self).x,
            final(self).y == old(self).y,
    {
        let mut pins: Vec<Colors> = Vec::new();
        let mut b = black_pins;
        let mut w = white_pins;
        let mut i: usize = 0;
        while i < 4
            invariant
                i <= 4,
                pins.len() == i,
                0 <= b <= black_pins,
                0 <= w <= white_pins,
                b == if i <= black_pins {
                    black_pins - i
                } else {
                    0int
                },
                w == if i <= black_pins {
                    white_pins as int
                } else if i - black_pins <= white_pins {
                    white_pins - (i - black_pins)
                } else {
                    0int
                },
                forall|m: int|
                    0 <= m < i ==> #[trigger] pins@[m] == pin_color_at(
                        m,
                        black_pins as int,
                        white_pins as int,
                    ),
            decreases 4 - i,
        {
            if b > 0 {
                pins.push(Colors::Black);
                b -= 1;
            } else if w > 0 {
                pins.push(Colors::White);
                w -= 1;
            } else {
                pins.push(Colors::Empty);
            }
            i += 1;
        }
        self.pins = pins;
    }
}

/// The window cannot host the requested board: the smallest width and
/// height that would, in board cells.
#[derive(PartialEq, Eq, Structural, Debug, Clone, Copy)]
pub struct ConfigError {
    pub min_width: i32,
    pub min_height: i64,
}

/// The narrowest board that fits a round: two border columns, four guess
/// columns of two cells, the pin column, and the four gaps of `SPACING`
/// cells between them.
pub open spec fn min_width_spec() -> int {
    12int + 4 * 3
}

/// The shortest board that fits `n` guess rows: borders, the secret row,
/// `n` guess rows of two cells, the input row, and a `SPACING`-cell gap
/// under each row.
pub open spec fn min_height_spec(n: int) -> int {
    2int + 2 + 2 * n + n * 3 + 3 + 2
}

/// The board row where the guess input field sits, below the secret row
/// and all `n` guess rows.
pub open spec fn gui_y_spec(n: int) -> int {
    1int + 2 + 2 * n + n * 3 + 3
}

/// Checks that the board fits the window and places the guess input field.
/// A window that is too small is a fatal configuration error, reported
/// with the smallest acceptable dimensions.
pub fn calculate_guess_input_position(width: i32, height: i32, number_of_guesses: i32) -> (r:
    Result<(i32, i32), ConfigError>)
    requires
        0 <= number_of_guesses,
    ensures
        r is Ok <==> min_width_spec() <= width && min_height_spec(number_of_guesses as int)
            <= height,
        r matches Ok(p) ==> p.0 == 1 && p.1 == gui_y_spec(number_of_guesses as int),
        r matches Err(e) ==> e.min_width == min_width_spec() && e.min_height == min_height_spec(
            number_of_guesses as int,
        ),
{
    let min_width: i32 = 12 + 4 * 3;
    let n = number_of_guesses as i64;
    let min_height: i64 = 2 + 2 + 2 * n + n * 3 + 3 + 2;
    if min_width > width || min_height > height as i64 {
        return Err(ConfigError { min_width, min_height });
    }
    let x: i32 = 1;
    let y: i32 = (1 + 2 + 2 * n + n * 3 + 3) as i32;
    Ok((x, y))
}

/// Relies on rand's `Rng::gen_range` over `0..n`: the sample lies in that
/// half-open range; the range is checked nonempty so the call cannot
/// panic. Nothing further is assumed of which value comes back.
#[verifier::external_body]
fn random_below(n: usize) -> (r: usize)
    requires
        0 < n,
    ensures
        r < n,
{
    rand::thread_rng().gen_range(0..n)
}

/// A fresh four-slot secret: each slot's color drawn independently from
/// the selectable palette, masked unless debug mode pre-reveals it, laid
/// out along the top row of the board.
fn create_new_secret(debug: bool) -> (r: Vec<SecretField>)
    ensures
        r.len() == 4,
        forall|i: int| 0 <= i < 4 ==> is_selectable(#[trigger] r@[i].color),
        forall|i: int| 0 <= i < 4 ==> (#[trigger] r@[i].show_color) == debug,
        forall|i: int| 0 <= i < 4 ==> (#[trigger] r@[i].x) == 1 + i * 5,
        forall|i: int| 0 <= i < 4 ==> (#[trigger] r@[i].y) == 1,
{
    proof {
        lemma_palette_contents();
    }
    let color_options = Colors::create_color_list();
    let mut secret: Vec<SecretField> = Vec::new();
    let mut i: usize = 0;
    while i < 4
        invariant
            i <= 4,
            secret.len() == i,
            color_options@ == palette(),
            forall|m: int| 0 <= m < i ==> is_selectable(#[trigger] secret@[m].color),
            forall|m: int| 0 <= m < i ==> (#[trigger] secret@[m].show_color) == debug,
            forall|m: int| 0 <= m < i ==> (#[trigger] secret@[m].x) == 1 + m * 5,
            forall|m: int| 0 <= m < i ==> (#[trigger] secret@[m].y) == 1,
        decreases 4 - i,
    {
        proof {
            lemma_palette_contents();
        }
        let pick = random_below(6);
        let color = color_options[pick];
        let x: i32 = 1 + (i as i32) * 5;
        secret.push(SecretField { x, y: 1, color, show_color: debug });
        i += 1;
    }
    secret
}

/// The empty guess rows of a fresh round, laid out under the secret row.
fn create_empty_guessed(number_of_guesses: usize) -> (r: Vec<Vec<GuessField>>)
    requires
        number_of_guesses <= MAX_NUMBER_OF_GUESSES,
    ensures
        r.len() == number_of_guesses,
        forall|k: int|
            0 <= k < number_of_guesses ==> (#[trigger] r@[k]).len() == 4 && forall|j: int|
                0 <= j < 4 ==> r@[k]@[j].color == Colors::Empty && r@[k]@[j].x == 1 + j * 5
                    && r@[k]@[j].y == 6 + k * 5,
    decreases number_of_guesses,
{
    let mut guessed: Vec<Vec<GuessField>> = Vec::new();
    let mut row: i32 = 1 + 2 + 3;
    let mut k: usize = 0;
    while k < number_of_guesses
        invariant
            k <= number_of_guesses,
            number_of_guesses <= MAX_NUMBER_OF_GUESSES,
            guessed.len() == k,
            row == 6 + k * 5,
            forall|m: int|
                0 <= m < k ==> (#[trigger] guessed@[m]).len() == 4 && forall|j: int|
                    0 <= j < 4 ==> guessed@[m]@[j].color == Colors::Empty && guessed@[m]@[j].x == 1
                        + j * 5 && guessed@[m]@[j].y == 6 + m * 5,
        decreases number_of_guesses - k,
    {
        let mut fields: Vec<GuessField> = Vec::new();
        fields.push(GuessField { x: 1, y: row, color: Colors::Empty });
        fields.push(GuessField { x: 1 + 5, y: row, color: Colors::Empty });
        fields.push(GuessField { x: 1 + 2 * 5, y: row, color: Colors::Empty });
        fields.push(GuessField { x: 1 + 3 * 5, y: row, color: Colors::Empty });
        guessed.push(fields);
        row = row + 3 + 2;
        k += 1;
    }
    guessed
}

/// The empty pin displays of a fresh round, one per guess row, in the pin
/// column on the right.
fn create_empty_guess_validation(number_of_guesses: usize) -> (r: Vec<ValidationField>)
    requires
        number_of_guesses <= MAX_NUMBER_OF_GUESSES,
    ensures
        r.len() == number_of_guesses,
        forall|k: int|
            0 <= k < number_of_guesses ==> (#[trigger] r@[k]).pins.len() == 4 && r@[k].x == 21
                && r@[k].y == 6 + k * 5 && forall|j: int|
                0 <= j < 4 ==> r@[k].pins@[j] == Colors::Empty,
{
    let mut guess_validation: Vec<ValidationField> = Vec::new();
    let mut row: i32 = 1 + 2 + 3;
    let column: i32 = 1 + 4 * 2 + 4 * 3;
    let mut k: usize = 0;
    while k < number_of_guesses
        invariant
            k <= number_of_guesses,
            number_of_guesses <= MAX_NUMBER_OF_GUESSES,
            guess_validation.len() == k,
            row == 6 + k * 5,
            column == 21,
            forall|m: int|
                0 <= m < k ==> (#[trigger] guess_validation@[m]).pins.len() == 4
                    && guess_validation@[m].x == 21 && guess_validation@[m].y == 6 + m * 5
                    && forall|j: int| 0 <= j < 4 ==> guess_validation@[m].pins@[j] == Colors::Empty,
        decreases number_of_guesses - k,
    {
        let mut pins: Vec<Colors> = Vec::new();
        pins.push(Colors::Empty);
        pins.push(Colors::Empty);
        pins.push(Colors::Empty);
        pins.push(Colors::Empty);
        guess_validation.push(ValidationField { x: column, y: row, pins });
        row = row + 3 + 2;
        k += 1;
    }
    guess_validation
}

/// An exact copy of the four guessed colors, taken before the input field
/// is cleared.
fn clone_colors(v: &Vec<Colors>) -> (r: Vec<Colors>)
    ensures
        r@ == v@,
{
    let mut copy: Vec<Colors> = Vec::new();
    let mut i: usize = 0;
    while i < v.len()
        invariant
            i <= v.len(),
            copy@ == v@.take(i as int),
        decreases v.len() - i,
    {
        copy.push(v[i]);
        proof {
            assert(copy@ =~= v@.take(i + 1));
        }
        i += 1;
    }
    proof {
        assert(v@.take(v@.len() as int) =~= v@);
    }
    copy
}

/// One round of the game: the secret, the history of scored guesses, the
/// turn pointer, the terminal flags, the input field, and the overlay-page
/// state, plus the window dimensions they were laid out for.
pub struct Game {
    pub guess_input_field: GuessInputField,
    pub width: i32,
    pub height: i32,
    pub number_of_guesses: usize,
    pub secret: Vec<SecretField>,
    pub guessed: Vec<Vec<GuessField>>,
    pub guess_validation: Vec<ValidationField>,
    pub guess_pointer: usize,
    pub game_over: bool,
    pub game_won: bool,
    pub game_running: bool,
    pub page_renderer: PageRenderer,
    pub debug: bool,
}

/// The parts of a game no round event ever touches.
pub open spec fn settings_unchanged(pre: Game, post: Game) -> bool {
    &&& post.width == pre.width
    &&& post.height == pre.height
    &&& post.number_of_guesses == pre.number_of_guesses
    &&& post.debug == pre.debug
    &&& post.game_running == pre.game_running
    &&& post.page_renderer == pre.page_renderer
}

/// Everything but the overlay-page state is untouched.
pub open spec fn only_page_changed(pre: Game, post: Game) -> bool {
    &&& post.guess_input_field == pre.guess_input_field
    &&& post.secret == pre.secret
    &&& post.guessed == pre.guessed
    &&& post.guess_validation == pre.guess_validation
    &&& post.guess_pointer == pre.guess_pointer
    &&& post.game_won == pre.game_won
    &&& post.game_over == pre.game_over
    &&& post.game_running == pre.game_running
    &&& post.width == pre.width
    &&& post.height == pre.height
    &&& post.number_of_guesses == pre.number_of_guesses
    &&& post.debug == pre.debug
}

/// The whole round state is untouched: history, pointer, flags, secret and
/// settings.
pub open spec fn round_unchanged(pre: Game, post: Game) -> bool {
    &&& post.secret == pre.secret
    &&& post.guessed == pre.guessed
    &&& post.guess_validation == pre.guess_validation
    &&& post.guess_pointer == pre.guess_pointer
    &&& post.game_won == pre.game_won
    &&& post.game_over == pre.game_over
    &&& settings_unchanged(pre, post)
}

impl Game {
    /// The four secret colors, in slot order.
    pub open spec fn secret_colors(self) -> Seq<Colors> {
        Seq::new(self.secret@.len(), |i: int| self.secret@[i].color)
    }

    /// Every secret slot has its color revealed.
    pub open spec fn secret_all_shown(self) -> bool {
        forall|i: int| 0 <= i < self.secret.len() ==> (#[trigger] self.secret@[i]).show_color
    }

    /// History row `k` has not been played yet: no colors, no pins.
    pub open spec fn row_unused(self, k: int) -> bool {
        &&& forall|j: int| 0 <= j < 4 ==> (#[trigger] self.guessed@[k]@[j].color) == Colors::Empty
        &&& forall|j: int|
            0 <= j < 4 ==> (#[trigger] self.guess_validation@[k].pins@[j]) == Colors::Empty
    }

    /// History row `k` shows four black pins: the guess matched the secret.
    pub open spec fn row_won(self, k: int) -> bool {
        forall|j: int|
            0 <= j < 4 ==> (#[trigger] self.guess_validation@[k].pins@[j]) == Colors::Black
    }

    /// Structural consistency: a well-formed input field, a four-slot
    /// selectable secret, one history row and one pin display per allowed
    /// guess, and a turn pointer within range.
    pub open spec fn shape_wf(self) -> bool {
        &&& self.guess_input_field.wf()
        &&& 1 <= self.number_of_guesses <= MAX_NUMBER_OF_GUESSES
        &&& self.secret.len() == 4
        &&& forall|i: int| 0 <= i < 4 ==> is_selectable((#[trigger] self.secret@[i]).color)
        &&& self.guessed.len() == self.number_of_guesses
        &&& forall|k: int|
            0 <= k < self.number_of_guesses ==> (#[trigger] self.guessed@[k]).len() == 4
        &&& self.guess_validation.len() == self.number_of_guesses
        &&& forall|k: int|
            0 <= k < self.number_of_guesses ==> (#[trigger] self.guess_validation@[k]).pins.len()
                == 4
        &&& self.guess_pointer <= self.number_of_guesses
    }

    /// The round invariant. Beyond the structure: won and lost exclude
    /// each other; an ended round has revealed its secret, disabled input,
    /// and holds no pending submit; the round is lost only with the board
    /// full and keeps a free row while it is still running; unplayed rows
    /// are blank; and the round is won exactly when some played row shows
    /// four black pins.
    pub open spec fn wf(self) -> bool {
        &&& self.shape_wf()
        &&& !(self.game_won && self.game_over)
        &&& (self.game_won || self.game_over) ==> self.guess_input_field.disabled
            && !self.guess_input_field.send_guess && self.secret_all_shown()
        &&& self.game_over ==> self.guess_pointer == self.number_of_guesses
        &&& (!self.game_won && !self.game_over) ==> self.guess_pointer < self.number_of_guesses
        &&& forall|k: int|
            self.guess_pointer <= k < self.number_of_guesses ==> #[trigger] self.row_unused(k)
        &&& self.game_won <==> exists|k: int|
            0 <= k < self.guess_pointer && #[trigger] self.row_won(k)
    }

    /// Sets up a round for a window of `width` by `height` board cells:
    /// validates that the board fits, draws a fresh secret, and lays out
    /// the blank history. A window too small aborts with the smallest
    /// workable dimensions before any round exists.
    pub fn new(width: i32, height: i32, number_of_guesses: usize, debug: bool) -> (r: Result<
        Game,
        ConfigError,
    >)
        requires
            1 <= number_of_guesses <= MAX_NUMBER_OF_GUESSES,
        ensures
            r is Ok <==> min_width_spec() <= width && min_height_spec(number_of_guesses as int)
                <= height,
            r matches Ok(g) ==> g.wf() && g.width == width && g.height == height
                && g.number_of_guesses == number_of_guesses && g.debug == debug
                && g.guess_pointer == 0 && !g.game_won && !g.game_over && !g.game_running
                && !g.page_renderer.open,
            r matches Ok(g) ==> (forall|k: int| 0 <= k < number_of_guesses ==> #[trigger] g.row_unused(k)),
            r matches Ok(g) ==> (forall|i: int|
                0 <= i < 4 ==> (#[trigger] g.secret@[i].show_color) == debug),
            r matches Ok(g) ==> g.guess_input_field.fields@ == seq![
                Colors::Empty,
                Colors::Empty,
                Colors::Empty,
                Colors::Empty,
            ] && !g.guess_input_field.disabled && !g.guess_input_field.send_guess
                && !g.guess_input_field.ready && g.guess_input_field.current_position == 0
                && g.guess_input_field.gui_position_x == 1 && g.guess_input_field.gui_position_y
                == gui_y_spec(number_of_guesses as int),
            r matches Err(e) ==> e.min_width == min_width_spec() && e.min_height
                == min_height_spec(number_of_guesses as int),
    {
        match calculate_guess_input_position(width, height, number_of_guesses as i32) {
            Err(e) => Err(e),
            Ok((gui_position_x, gui_position_y)) => {
                let secret = create_new_secret(debug);
                let guessed = create_empty_guessed(number_of_guesses);
                let guess_validation = create_empty_guess_validation(number_of_guesses);
                let page_renderer = PageRenderer::new(false);
                let game = Game {
                    guess_input_field: GuessInputField::new(gui_position_x, gui_position_y),
                    width,
                    height,
                    number_of_guesses,
                    secret,
                    guessed,
                    guess_validation,
                    guess_pointer: 0,
                    game_over: false,
                    game_won: false,
                    game_running: false,
                    page_renderer,
                    debug,
                };
                proof {
                    assert forall|k: int| 0 <= k < number_of_guesses implies #[trigger] game.row_unused(
                        k,
                    ) by {
                        assert(game.guessed@[k].len() == 4);
                        assert(game.guess_validation@[k].pins.len() == 4);
                    }
                }
                Ok(game)
            },
        }
    }

    /// Whether the input field holds a guess waiting to be scored.
    pub fn check_send_guess(&self) -> (r: bool)
        ensures
            r == self.guess_input_field.send_guess,
    {
        self.guess_input_field.get_send_guess()
    }

    /// Ends the round on screen: disables further input and reveals every
    /// secret slot.
    fn handle_game_end(&mut self)
        requires
            old(self).secret.len() == 4,
        ensures
            final(self).guess_input_field.disabled,
            final(self).guess_input_field.fields == old(self).guess_input_field.fields,
            final(self).guess_input_field.ready == old(self).guess_input_field.ready,
            final(self).guess_input_field.send_guess == old(self).guess_input_field.send_guess,
            final(self).guess_input_field.current_position == old(self).guess_input_field.current_position,
            layout_unchanged(old(self).guess_input_field, final(self).guess_input_field),
            final(self).secret.len() == 4,
            forall|i: int|
                0 <= i < 4 ==> (#[trigger] final(self).secret@[i]) == (SecretField {
                    show_color: true,
                    ..old(self).secret@[i]
                }),
            final(self).guessed == old(self).guessed,
            final(self).guess_validation == old(self).guess_validation,
            final(self).guess_pointer == old(self).guess_pointer,
            final(self).game_won == old(self).game_won,
            final(self).game_over == old(self).game_over,
            settings_unchanged(*old(self), *final(self)),
    {
        self.guess_input_field.disable_input();
        let mut i: usize = 0;
        while i < 4
            invariant
                i <= 4,
                self.secret.len() == 4,
                forall|m: int|
                    0 <= m < i ==> (#[trigger] self.secret@[m]) == (SecretField {
                        show_color: true,
                        ..old(self).secret@[m]
                    }),
                forall|m: int|
                    i <= m < 4 ==> (#[trigger] self.secret@[m]) == old(self).secret@[m],
                self.guess_input_field == (GuessInputField {
                    disabled: true,
                    ..old(self).guess_input_field
                }),
                self.guessed == old(self).guessed,
                self.guess_validation == old(self).guess_validation,
                self.guess_pointer == old(self).guess_pointer,
                self.game_won == old(self).game_won,
                self.game_over == old(self).game_over,
                self.width == old(self).width,
                self.height == old(self).height,
                self.number_of_guesses == old(self).number_of_guesses,
                self.debug == old(self).debug,
                self.game_running == old(self).game_running,
                self.page_renderer == old(self).page_renderer,
            decreases 4 - i,
        {
            let mut field = self.secret[i];
            field.show_color();
            self.secret.set(i, field);
            i += 1;
        }
    }

    /// Scores a finalized guess against this round's secret.
    pub fn check_guess_against_secret(&self, current_guess: &Vec<Colors>) -> (r: (i32, i32))
        requires
            self.secret.len() == 4,
            forall|i: int| 0 <= i < 4 ==> is_selectable((#[trigger] self.secret@[i]).color),
            current_guess.len() == 4,
            all_selectable(current_guess@),
        ensures
            r.0 == exact_count(self.secret_colors(), current_guess@),
            r.1 == partial_count(self.secret_colors(), current_guess@),
            0 <= r.0 <= 4,
            0 <= r.1,
            r.0 + r.1 <= 4,
            r.0 == 4 <==> self.secret_colors() =~= current_guess@,
    {
        let mut secret_colors: Vec<Colors> = Vec::new();
        secret_colors.push(self.secret[0].color);
        secret_colors.push(self.secret[1].color);
        secret_colors.push(self.secret[2].color);
        secret_colors.push(self.secret[3].color);
        proof {
            assert(secret_colors@ =~= self.secret_colors());
        }
        score(&secret_colors, current_guess)
    }
}

/// Effect of accepting the pending guess of `pre`: it is scored, recorded
/// in the next free history row with its pins, the turn pointer advances,
/// the input field is cleared, and the round ends — won on four black
/// pins, lost when the board just filled without them — revealing the
/// secret and disabling input.
pub open spec fn processes_submission(pre: Game, post: Game) -> bool {
    let g = pre.guess_input_field.fields@;
    let e = exact_count(pre.secret_colors(), g);
    let p = partial_count(pre.secret_colors(), g);
    let ends = e == 4 || (e != 4 && pre.guess_pointer + 1 == pre.number_of_guesses);
    &&& post.guess_pointer == pre.guess_pointer + 1
    &&& post.game_won == (e == 4)
    &&& post.game_over == (e != 4 && pre.guess_pointer + 1 == pre.number_of_guesses)
    &&& post.guessed.len() == pre.guessed.len()
    &&& post.guess_validation.len() == pre.guess_validation.len()
    &&& forall|j: int|
        0 <= j < 4 ==> (#[trigger] post.guessed@[pre.guess_pointer as int]@[j].color) == g[j]
    &&& forall|j: int|
        0 <= j < 4 ==> (#[trigger] post.guess_validation@[pre.guess_pointer as int].pins@[j])
            == pin_color_at(j, e, p)
    &&& forall|k: int|
        0 <= k < pre.guessed.len() && k != pre.guess_pointer ==> (#[trigger] post.guessed@[k])
            == pre.guessed@[k]
    &&& forall|k: int|
        0 <= k < pre.guess_validation.len() && k != pre.guess_pointer ==> (
        #[trigger] post.guess_validation@[k]) == pre.guess_validation@[k]
    &&& post.guess_input_field.fields@ == seq![
        Colors::Empty,
        Colors::Empty,
        Colors::Empty,
        Colors::Empty,
    ]
    &&& !post.guess_input_field.ready
    &&& !post.guess_input_field.send_guess
    &&& post.guess_input_field.current_position == 0
    &&& post.guess_input_field.disabled == (ends || pre.guess_input_field.disabled)
    &&& post.guess_input_field.color_options == pre.guess_input_field.color_options
    &&& post.guess_input_field.gui_position_x == pre.guess_input_field.gui_position_x
    &&& post.guess_input_field.gui_position_y == pre.guess_input_field.gui_position_y
    &&& post.secret.len() == pre.secret.len()
    &&& forall|i: int|
        0 <= i < 4 ==> (#[trigger] post.secret@[i].color) == pre.secret@[i].color
    &&& (ends ==> post.secret_all_shown())
    &&& (!ends ==> post.secret == pre.secret)
    &&& settings_unchanged(pre, post)
}

/// Effect of a restart: a blank history, the turn pointer at the first
/// row, no terminal flags, a fresh four-slot selectable secret (masked
/// unless debug mode shows it), and an empty, enabled input field. The
/// new secret's colors are random and so not pinned here.
pub open spec fn restarts(pre: Game, post: Game) -> bool {
    &&& post.guess_pointer == 0
    &&& !post.game_won
    &&& !post.game_over
    &&& post.guessed.len() == pre.number_of_guesses
    &&& post.guess_validation.len() == pre.number_of_guesses
    &&& forall|k: int| 0 <= k < post.number_of_guesses ==> #[trigger] post.row_unused(k)
    &&& post.secret.len() == 4
    &&& forall|i: int| 0 <= i < 4 ==> is_selectable((#[trigger] post.secret@[i]).color)
    &&& forall|i: int| 0 <= i < 4 ==> (#[trigger] post.secret@[i].show_color) == pre.debug
    &&& post.guess_input_field.fields@ == seq![
        Colors::Empty,
        Colors::Empty,
        Colors::Empty,
        Colors::Empty,
    ]
    &&& !post.guess_input_field.ready
    &&& !post.guess_input_field.send_guess
    &&& post.guess_input_field.current_position == 0
    &&& !post.guess_input_field.disabled
    &&& layout_unchanged(pre.guess_input_field, post.guess_input_field)
    &&& settings_unchanged(pre, post)
}

/// The history-dependent parts of the round invariant carry over to any
/// state that keeps the history, the pointer, the win flag and the secret.
proof fn lemma_round_facts_carry(pre: Game, post: Game)
    requires
        post.guessed == pre.guessed,
        post.guess_validation == pre.guess_validation,
        post.guess_pointer == pre.guess_pointer,
        post.number_of_guesses == pre.number_of_guesses,
        post.game_won == pre.game_won,
        post.secret == pre.secret,
        forall|k: int|
            pre.guess_pointer <= k < pre.number_of_guesses ==> #[trigger] pre.row_unused(k),
        pre.game_won <==> exists|k: int|
            0 <= k < pre.guess_pointer && #[trigger] pre.row_won(k),
    ensures
        forall|k: int|
            post.guess_pointer <= k < post.number_of_guesses ==> #[trigger] post.row_unused(k),
        post.game_won <==> exists|k: int|
            0 <= k < post.guess_pointer && #[trigger] post.row_won(k),
        pre.secret_all_shown() ==> post.secret_all_shown(),
{
    assert forall|k: int|
        post.guess_pointer <= k < post.number_of_guesses implies #[trigger] post.row_unused(
        k,
    ) by {
        assert(pre.row_unused(k));
        assert(post.guessed@[k] == pre.guessed@[k]);
        assert(post.guess_validation@[k] == pre.guess_validation@[k]);
    }
    if pre.game_won {
        let k = choose|k: int| 0 <= k < pre.guess_pointer && #[trigger] pre.row_won(k);
        assert(post.guess_validation@[k] == pre.guess_validation@[k]);
        assert(post.row_won(k));
    }
    if exists|k: int| 0 <= k < post.guess_pointer && #[trigger] post.row_won(k) {
        let k = choose|k: int| 0 <= k < post.guess_pointer && #[trigger] post.row_won(k);
        assert(post.guess_validation@[k] == pre.guess_validation@[k]);
        assert(pre.row_won(k));
    }
    if pre.secret_all_shown() {
        assert forall|i: int|
            0 <= i < post.secret.len() implies (#[trigger] post.secret@[i]).show_color by {
            assert(pre.secret@[i].show_color);
        }
    }
}

impl Game {
    /// Records a scored guess in the next free history row: sets its pins,
    /// stores the guessed colors, advances the turn pointer, and closes
    /// the round when the guess won or the board just filled.
    fn set_validation_pins_and_save_guess(
        &mut self,
        black_pins: i32,
        white_pins: i32,
        current_guess: &Vec<Colors>,
    )
        requires
            old(self).wf(),
            !old(self).game_won,
            !old(self).game_over,
            !old(self).guess_input_field.send_guess,
            0 <= black_pins <= 4,
            0 <= white_pins,
            black_pins + white_pins <= 4,
            current_guess.len() == 4,
        ensures
            final(self).wf(),
            final(self).guess_pointer == old(self).guess_pointer + 1,
            final(self).game_won == (black_pins == 4),
            final(self).game_over == (black_pins != 4 && old(self).guess_pointer + 1 == old(self).number_of_guesses),
            forall|j: int|
                0 <= j < 4 ==> (#[trigger] final(self).guessed@[old(self).guess_pointer as int]@[j])
                    == (GuessField {
                    color: current_guess@[j],
                    ..old(self).guessed@[old(self).guess_pointer as int]@[j]
                }),
            forall|j: int|
                0 <= j < 4 ==> (#[trigger] final(self).guess_validation@[old(self).guess_pointer as int].pins@[j]) == pin_color_at(
                    j,
                    black_pins as int,
                    white_pins as int,
                ),
            forall|k: int|
                0 <= k < old(self).guessed.len() && k != old(self).guess_pointer ==> (
                #[trigger] final(self).guessed@[k]) == old(self).guessed@[k],
            forall|k: int|
                0 <= k < old(self).guess_validation.len() && k != old(self).guess_pointer ==> (
                #[trigger] final(self).guess_validation@[k]) == old(self).guess_validation@[k],
            final(self).guess_input_field.fields == old(self).guess_input_field.fields,
            final(self).guess_input_field.ready == old(self).guess_input_field.ready,
            final(self).guess_input_field.send_guess == old(self).guess_input_field.send_guess,
            final(self).guess_input_field.current_position == old(self).guess_input_field.current_position,
            layout_unchanged(old(self).guess_input_field, final(self).guess_input_field),
            final(self).guess_input_field.disabled == ((final(self).game_won || final(self).game_over) || old(self).guess_input_field.disabled),
            final(self).secret.len() == 4,
            forall|i: int|
                0 <= i < 4 ==> (#[trigger] final(self).secret@[i].color) == old(self).secret@[i].color,
            (final(self).game_won || final(self).game_over) ==> final(self).secret_all_shown(),
            (!final(self).game_won && !final(self).game_over) ==> final(self).secret == old(self).secret,
            settings_unchanged(*old(self), *final(self)),
    {
        let ptr = self.guess_pointer;
        let vx = self.guess_validation[ptr].x;
        let vy = self.guess_validation[ptr].y;
        let mut validation = ValidationField { x: vx, y: vy, pins: Vec::new() };
        validation.set_pins(black_pins, white_pins);
        self.guess_validation.set(ptr, validation);
        let mut row: Vec<GuessField> = Vec::new();
        let mut j: usize = 0;
        while j < 4
            invariant
                j <= 4,
                row.len() == j,
                current_guess.len() == 4,
                self.guessed == old(self).guessed,
                self.guess_pointer == old(self).guess_pointer,
                ptr == old(self).guess_pointer,
                ptr < self.guessed.len(),
                self.guessed@[ptr as int].len() == 4,
                forall|m: int|
                    0 <= m < j ==> (#[trigger] row@[m]) == (GuessField {
                        color: current_guess@[m],
                        ..old(self).guessed@[ptr as int]@[m]
                    }),
            decreases 4 - j,
        {
            let old_field = self.guessed[ptr][j];
            row.push(GuessField { x: old_field.x, y: old_field.y, color: current_guess[j] });
            j += 1;
        }
        self.guessed.set(ptr, row);
        self.guess_pointer = ptr + 1;
        if black_pins == 4 {
            self.game_won = true;
            self.handle_game_end();
        } else if self.guess_pointer == self.number_of_guesses {
            self.game_over = true;
            self.handle_game_end();
        }
        proof {
            let post = *self;
            let pre = *old(self);
            assert forall|k: int|
                post.guess_pointer <= k < post.number_of_guesses implies #[trigger] post.row_unused(
                k,
            ) by {
                assert(pre.row_unused(k));
                assert(post.guessed@[k] == pre.guessed@[k]);
                assert(post.guess_validation@[k] == pre.guess_validation@[k]);
            }
            if black_pins == 4 {
                assert(post.row_won(ptr as int)) by {
                    assert(forall|j: int|
                        0 <= j < 4 ==> pin_color_at(j, black_pins as int, white_pins as int)
                            == Colors::Black);
                }
                assert(post.game_won);
            } else {
                assert forall|k: int|
                    0 <= k < post.guess_pointer implies !(#[trigger] post.row_won(k)) by {
                    if k == ptr as int {
                        assert(post.guess_validation@[k].pins@[black_pins as int] != Colors::Black);
                    } else {
                        assert(post.guess_validation@[k] == pre.guess_validation@[k]);
                        assert(!pre.row_won(k)) by {
                            if pre.row_won(k) {
                                assert(pre.game_won);
                            }
                        }
                    }
                }
            }
        }
    }

    /// Advances the input field one tick and, when a completed guess is
    /// pending, takes it through scoring, history and round termination.
    /// While the round is over nothing but the cursor blink changes.
    pub fn update_guess_input_field(&mut self)
        requires
            old(self).wf(),
        ensures
            final(self).wf(),
            !old(self).guess_input_field.send_guess ==> round_unchanged(*old(self), *final(self))
                && final(self).guess_input_field.fields == old(self).guess_input_field.fields
                && final(self).guess_input_field.send_guess == old(self).guess_input_field.send_guess
                && final(self).guess_input_field.current_position == old(self).guess_input_field.current_position && final(self).guess_input_field.disabled == old(self).guess_input_field.disabled,
            old(self).guess_input_field.send_guess ==> processes_submission(
                *old(self),
                *final(self),
            ),
            final(self).guess_input_field.ready == all_slots_filled(
                final(self).guess_input_field.fields@,
            ),
            old(self).guess_input_field.flash_timer <= 0 ==> final(self).guess_input_field.flashing_visible == !old(self).guess_input_field.flashing_visible,
            old(self).guess_input_field.flash_timer > 0 ==> final(self).guess_input_field.flashing_visible == old(self).guess_input_field.flashing_visible,
            (old(self).game_won || old(self).game_over) ==> round_unchanged(
                *old(self),
                *final(self),
            ),
    {
        self.guess_input_field.update();
        if self.check_send_guess() {
            let current_guess = clone_colors(self.guess_input_field.get_guess());
            self.guess_input_field.reset_guess();
            proof {
                lemma_round_facts_carry(*old(self), *self);
                assert(all_selectable(current_guess@)) by {
                    assert(forall|i: int|
                        0 <= i < 4 ==> current_guess@[i] != Colors::Empty && current_guess@[i]
                            != Colors::Secret);
                }
            }
            let (black_pins, white_pins) = self.check_guess_against_secret(&current_guess);
            self.set_validation_pins_and_save_guess(black_pins, white_pins, &current_guess);
        } else {
            proof {
                lemma_round_facts_carry(*old(self), *self);
            }
        }
    }

    /// Opens the help page over the board.
    fn enable_help(&mut self)
        ensures
            final(self).page_renderer.open,
            final(self).page_renderer.menu_state == MenuState::PausedHelp,
            final(self).page_renderer.last_significant_state == MenuState::PausedHelp,
            only_page_changed(*old(self), *final(self)),
    {
        self.page_renderer.open(MenuState::PausedHelp)
    }

    /// Begins a new round in place: everything of the old round is thrown
    /// away atomically and a fresh secret is drawn.
    pub fn restart(&mut self)
        requires
            old(self).wf(),
        ensures
            final(self).wf(),
            restarts(*old(self), *final(self)),
    {
        self.guess_pointer = 0;
        self.guessed = create_empty_guessed(self.number_of_guesses);
        self.guess_validation = create_empty_guess_validation(self.number_of_guesses);
        self.secret = create_new_secret(self.debug);
        self.game_over = false;
        self.game_won = false;
        self.guess_input_field.reset_guess();
        self.guess_input_field.enable_input();
        proof {
            assert forall|k: int|
                0 <= k < self.number_of_guesses implies #[trigger] self.row_unused(k) by {
                assert(self.guessed@[k].len() == 4);
                assert(self.guess_validation@[k].pins.len() == 4);
            }
        }
    }

    /// Routes one input event: an open overlay page consumes it; otherwise
    /// the restart and help actions act on the round, and everything else
    /// is handed to the guess input field.
    pub fn key_pressed(&mut self, event: InputEvent)
        requires
            old(self).wf(),
        ensures
            final(self).wf(),
            old(self).page_renderer.open ==> crate::page_renderer::page_steps(
                old(self).page_renderer,
                final(self).page_renderer,
                event,
            ) && only_page_changed(*old(self), *final(self)),
            !old(self).page_renderer.open && event == InputEvent::Restart ==> restarts(
                *old(self),
                *final(self),
            ),
            !old(self).page_renderer.open && event == InputEvent::OpenHelp ==> final(self).page_renderer.open && final(self).page_renderer.menu_state == MenuState::PausedHelp
                && only_page_changed(*old(self), *final(self)),
            !old(self).page_renderer.open && event != InputEvent::Restart && event
                != InputEvent::OpenHelp ==> input_field_steps(
                old(self).guess_input_field,
                final(self).guess_input_field,
                event,
            ) && round_unchanged(*old(self), *final(self)),
    {
        if self.page_renderer.is_open() {
            self.page_renderer.key_pressed(event);
            proof {
                lemma_round_facts_carry(*old(self), *self);
            }
        } else {
            match event {
                InputEvent::OpenHelp => {
                    self.enable_help();
                    proof {
                        lemma_round_facts_carry(*old(self), *self);
                    }
                },
                InputEvent::Restart => self.restart(),
                _ => {
                    self.guess_input_field.key_pressed(event);
                    proof {
                        lemma_round_facts_carry(*old(self), *self);
                    }
                },
            }
        }
    }
}

/// Once a round has ended, no input event can raise a pending submit: the
/// input field is disabled, so every event leaves it exactly as it is.
pub proof fn lemma_no_submissions_after_end(pre: Game, post: Game, event: InputEvent)
    requires
        pre.wf(),
        pre.game_won || pre.game_over,
        input_field_steps(pre.guess_input_field, post.guess_input_field, event),
    ensures
        post.guess_input_field == pre.guess_input_field,
        !post.guess_input_field.send_guess,
{
}

} // verus!
