//! Colors, the player-selectable palette, and the editable guess input field.

use vstd::prelude::*;

verus! {

/// Every color a board cell can show. `Empty` (no color chosen yet) and
/// `Secret` (the mask drawn over an unrevealed secret slot) are sentinels:
/// they are never part of the player-selectable palette and never reach
/// the scoring stage.
#[derive(PartialEq, Eq, Structural, Debug, Copy, Clone)]
pub enum Colors {
    Empty,
    Red,
    Blue,
    Green,
    Yellow,
    Black,
    White,
    Secret,
}

/// A color the player may actually pick for a guess slot or that a secret
/// slot may hold: everything except the two sentinels.
pub open spec fn is_selectable(c: Colors) -> bool {
    c != Colors::Empty && c != Colors::Secret
}

/// The fixed, ordered cycle of selectable colors.
pub open spec fn palette() -> Seq<Colors> {
    seq![
        Colors::Red,
        Colors::Blue,
        Colors::Green,
        Colors::Yellow,
        Colors::Black,
        Colors::White,
    ]
}

/// Position of a selectable color within `palette()`.
pub open spec fn palette_index(c: Colors) -> int {
    match c {
        Colors::Red => 0,
        Colors::Blue => 1,
        Colors::Green => 2,
        Colors::Yellow => 3,
        Colors::Black => 4,
        Colors::White => 5,
        _ => 0,
    }
}

/// The palette holds exactly the selectable colors, each at the index
/// `palette_index` gives it.
pub proof fn lemma_palette_contents()
    ensures
        palette().len() == 6,
        forall|i: int| 0 <= i < 6 ==> is_selectable(#[trigger] palette()[i]),
        forall|i: int| 0 <= i < 6 ==> palette_index(#[trigger] palette()[i]) == i,
        forall|c: Colors| is_selectable(c) ==> palette()[palette_index(c)] == c,
{
    assert forall|i: int| 0 <= i < 6 implies is_selectable(#[trigger] palette()[i])
        && palette_index(#[trigger] palette()[i]) == i by {
        if i == 0 {
            assert(palette()[0] == Colors::Red);
        } else if i == 1 {
            assert(palette()[1] == Colors::Blue);
        } else if i == 2 {
            assert(palette()[2] == Colors::Green);
        } else if i == 3 {
            assert(palette()[3] == Colors::Yellow);
        } else if i == 4 {
            assert(palette()[4] == Colors::Black);
        } else {
            assert(palette()[5] == Colors::White);
        }
    }
    assert forall|c: Colors| is_selectable(c) implies palette()[palette_index(c)] == c by {
        match c {
            Colors::Red => assert(palette()[0] == Colors::Red),
            Colors::Blue => assert(palette()[1] == Colors::Blue),
            Colors::Green => assert(palette()[2] == Colors::Green),
            Colors::Yellow => assert(palette()[3] == Colors::Yellow),
            Colors::Black => assert(palette()[4] == Colors::Black),
            Colors::White => assert(palette()[5] == Colors::White),
            _ => {},
        }
    }
}

impl Colors {
    /// The ordered list of colors the player can cycle through.
    pub fn create_color_list() -> (r: Vec<Colors>)
        ensures
            r@ == palette(),
    {
        let mut color_options: Vec<Colors> = Vec::new();
        color_options.push(Colors::Red);
        color_options.push(Colors::Blue);
        color_options.push(Colors::Green);
        color_options.push(Colors::Yellow);
        color_options.push(Colors::Black);
        color_options.push(Colors::White);
        proof {
            assert(color_options@ =~= palette());
        }
        color_options
    }
}

/// Position of a selectable color within the runtime color list; mirrors
/// `palette_index`.
pub(crate) fn palette_position(c: Colors) -> (i: usize)
    requires
        is_selectable(c),
    ensures
        i < 6,
        i == palette_index(c),
{
    match c {
        Colors::Red => 0,
        Colors::Blue => 1,
        Colors::Green => 2,
        Colors::Yellow => 3,
        Colors::Black => 4,
        Colors::White => 5,
        _ => 0,
    }
}

/// A discrete input action fed into the game by the window's key handler.
#[derive(PartialEq, Eq, Structural, Debug, Copy, Clone)]
pub enum InputEvent {
    MoveLeft,
    MoveRight,
    CycleUp,
    CycleDown,
    Submit,
    Restart,
    OpenHelp,
    OpenGeneral,
    StartOrClose,
}

/// True when every guess slot has a color chosen.
pub open spec fn all_slots_filled(s: Seq<Colors>) -> bool {
    forall|i: int| 0 <= i < s.len() ==> s[i] != Colors::Empty
}

/// Where the cursor lands when asked to move by `dir` from `pos`: one step
/// left or right, silently clamped to the range `[0, 4]` (4 is the submit
/// affordance); any other `dir` is ignored.
pub open spec fn move_position_spec(pos: int, dir: int) -> int {
    if dir == -1 && pos > 0 {
        pos - 1
    } else if dir == 1 && pos < 4 {
        pos + 1
    } else {
        pos
    }
}

/// Out-of-range cursor moves are silent no-ops: once the cursor sits at a
/// bound, pushing it further out — once or any number of times — leaves it
/// exactly there.
pub proof fn lemma_move_cursor_clamps(pos: int, dir: int)
    ensures
        move_position_spec(0, -1) == 0,
        move_position_spec(4, 1) == 4,
        move_position_spec(move_position_spec(0, -1), -1) == 0,
        move_position_spec(move_position_spec(4, 1), 1) == 4,
        move_position_spec(pos, dir) == pos ==> move_position_spec(
            move_position_spec(pos, dir),
            dir,
        ) == pos,
{
}

/// The color a slot shows after cycling by `dir` (`-1` backwards, anything
/// else forwards). An empty slot enters the cycle at its nearest end; a
/// chosen color moves to its palette neighbor, wrapping at both ends.
pub open spec fn cycle_color_spec(c: Colors, dir: int) -> Colors {
    if c == Colors::Empty {
        if dir == -1 {
            Colors::White
        } else {
            Colors::Red
        }
    } else {
        palette()[(palette_index(c) + if dir == -1 { 5int } else { 1int }) % 6]
    }
}

/// The editable four-slot guess: chosen colors, cursor, readiness and the
/// pending-submit flag, plus the blink state and screen anchor used when the
/// field is drawn.
pub struct GuessInputField {
    pub fields: Vec<Colors>,
    pub color_options: Vec<Colors>,
    pub ready: bool,
    pub send_guess: bool,
    pub current_position: usize,
    pub disabled: bool,
    pub flashing_visible: bool,
    pub flash_timer: i32,
    pub gui_position_x: i32,
    pub gui_position_y: i32,
}

/// Blink period of the cursor highlight, in update ticks.
pub const FLASH_TIMER: i32 = 4;

/// The parts of the field that no input event ever touches.
pub open spec fn layout_unchanged(pre: GuessInputField, post: GuessInputField) -> bool {
    &&& post.color_options == pre.color_options
    &&& post.flashing_visible == pre.flashing_visible
    &&& post.flash_timer == pre.flash_timer
    &&& post.gui_position_x == pre.gui_position_x
    &&& post.gui_position_y == pre.gui_position_y
}

/// Effect of a cursor move by `dir`: only the cursor changes, per
/// `move_position_spec`.
pub open spec fn moves_cursor(pre: GuessInputField, post: GuessInputField, dir: int) -> bool {
    &&& post.current_position == move_position_spec(pre.current_position as int, dir)
    &&& post.fields == pre.fields
    &&& post.ready == pre.ready
    &&& post.send_guess == pre.send_guess
    &&& post.disabled == pre.disabled
    &&& layout_unchanged(pre, post)
}

/// Effect of cycling the color under the cursor by `dir`: a no-op at the
/// submit affordance; otherwise the slot advances per `cycle_color_spec`
/// and readiness is re-derived.
pub open spec fn cycles_color(pre: GuessInputField, post: GuessInputField, dir: int) -> bool {
    if pre.current_position == 4 {
        post == pre
    } else {
        &&& post.fields@ == pre.fields@.update(
            pre.current_position as int,
            cycle_color_spec(pre.fields@[pre.current_position as int], dir),
        )
        &&& post.ready == all_slots_filled(post.fields@)
        &&& post.send_guess == pre.send_guess
        &&& post.current_position == pre.current_position
        &&& post.disabled == pre.disabled
        &&& layout_unchanged(pre, post)
    }
}

/// Effect of the submit action: the pending-submit flag is raised exactly
/// when the cursor sits on the submit affordance and the guess is ready.
pub open spec fn raises_send(pre: GuessInputField, post: GuessInputField) -> bool {
    &&& post.send_guess == if pre.current_position == 4 && pre.ready {
        true
    } else {
        pre.send_guess
    }
    &&& post.fields == pre.fields
    &&& post.ready == pre.ready
    &&& post.current_position == pre.current_position
    &&& post.disabled == pre.disabled
    &&& layout_unchanged(pre, post)
}

/// One step of the input-field state machine: while disabled every event is
/// ignored; otherwise the event dispatches to its operation, and events the
/// field does not consume leave it unchanged.
pub open spec fn input_field_steps(
    pre: GuessInputField,
    post: GuessInputField,
    event: InputEvent,
) -> bool {
    if pre.disabled {
        post == pre
    } else {
        match event {
            InputEvent::MoveLeft => moves_cursor(pre, post, -1),
            InputEvent::MoveRight => moves_cursor(pre, post, 1),
            InputEvent::CycleUp => cycles_color(pre, post, 1),
            InputEvent::CycleDown => cycles_color(pre, post, -1),
            InputEvent::Submit => raises_send(pre, post),
            _ => post == pre,
        }
    }
}

impl GuessInputField {
    /// Internal consistency: four slots, the standard palette, a cursor in
    /// range, no sentinel-masked slot, readiness derived from the slots, a
    /// pending submit only when the guess is complete, and a blink timer
    /// within its period.
    pub open spec fn wf(self) -> bool {
        &&& self.fields.len() == 4
        &&& self.color_options@ == palette()
        &&& self.current_position <= 4
        &&& forall|i: int| 0 <= i < 4 ==> #[trigger] self.fields@[i] != Colors::Secret
        &&& self.ready == all_slots_filled(self.fields@)
        &&& (self.send_guess ==> all_slots_filled(self.fields@))
        &&& 0 <= self.flash_timer <= FLASH_TIMER
    }

    /// The field as a round starts: all slots empty, cursor on the first
    /// slot, nothing pending, input enabled.
    pub fn new(gui_position_x: i32, gui_position_y: i32) -> (r: GuessInputField)
        ensures
            r.wf(),
            r.fields@ == seq![Colors::Empty, Colors::Empty, Colors::Empty, Colors::Empty],
            !r.ready,
            !r.send_guess,
            r.current_position == 0,
            !r.disabled,
            r.flashing_visible,
            r.flash_timer == FLASH_TIMER,
            r.gui_position_x == gui_position_x,
            r.gui_position_y == gui_position_y,
    {
        let mut fields: Vec<Colors> = Vec::new();
        fields.push(Colors::Empty);
        fields.push(Colors::Empty);
        fields.push(Colors::Empty);
        fields.push(Colors::Empty);
        proof {
            assert(fields@ =~= seq![Colors::Empty, Colors::Empty, Colors::Empty, Colors::Empty]);
        }
        let color_options = Colors::create_color_list();
        GuessInputField {
            fields,
            color_options,
            ready: false,
            send_guess: false,
            current_position: 0,
            disabled: false,
            flashing_visible: true,
            flash_timer: FLASH_TIMER,
            gui_position_x,
            gui_position_y,
        }
    }

    /// Whether a completed guess is waiting to be scored.
    pub fn get_send_guess(&self) -> (r: bool)
        ensures
            r == self.send_guess,
    {
        self.send_guess
    }

    /// The four currently chosen colors.
    pub fn get_guess(&self) -> (r: &Vec<Colors>)
        ensures
            r@ == self.fields@,
    {
        &self.fields
    }

    /// Clears the guess back to its initial editable state; the disabled
    /// flag and blink state are left alone.
    pub fn reset_guess(&mut self)
        requires
            old(self).wf(),
        ensures
            final(self).wf(),
            final(self).fields@ == seq![Colors::Empty, Colors::Empty, Colors::Empty, Colors::Empty],
            !final(self).ready,
            !final(self).send_guess,
            final(self).current_position == 0,
            final(self).disabled == old(self).disabled,
            layout_unchanged(*old(self), *final(self)),
    {
        let mut fields: Vec<Colors> = Vec::new();
        fields.push(Colors::Empty);
        fields.push(Colors::Empty);
        fields.push(Colors::Empty);
        fields.push(Colors::Empty);
        proof {
            assert(fields@ =~= seq![Colors::Empty, Colors::Empty, Colors::Empty, Colors::Empty]);
        }
        self.fields = fields;
        self.ready = false;
        self.send_guess = false;
        self.current_position = 0;
    }

    /// Shuts the field off; every input event is ignored until it is
    /// enabled again.
    pub fn disable_input(&mut self)
        ensures
            final(self).disabled,
            final(self).fields == old(self).fields,
            final(self).ready == old(self).ready,
            final(self).send_guess == old(self).send_guess,
            final(self).current_position == old(self).current_position,
            layout_unchanged(*old(self), *final(self)),
    {
        self.disabled = true;
    }

    /// Lets the field accept input events again.
    pub fn enable_input(&mut self)
        ensures
            !final(self).disabled,
            final(self).fields == old(self).fields,
            final(self).ready == old(self).ready,
            final(self).send_guess == old(self).send_guess,
            final(self).current_position == old(self).current_position,
            layout_unchanged(*old(self), *final(self)),
    {
        self.disabled = false;
    }

    /// Feeds one input event into the field.
    pub fn key_pressed(&mut self, event: InputEvent)
        requires
            old(self).wf(),
        ensures
            final(self).wf(),
            input_field_steps(*old(self), *final(self), event),
    {
        if !self.disabled {
            match event {
                InputEvent::MoveLeft => self.move_current_position(-1),
                InputEvent::MoveRight => self.move_current_position(1),
                InputEvent::CycleUp => self.change_color(1),
                InputEvent::CycleDown => self.change_color(-1),
                InputEvent::Submit => self.send_guess(),
                _ => {},
            }
        }
    }

    /// Re-derives readiness from the slots and advances the cursor blink:
    /// when the timer runs out the highlight toggles and the period
    /// restarts.
    pub fn update(&mut self)
        requires
            old(self).wf(),
        ensures
            final(self).wf(),
            final(self).ready == all_slots_filled(old(self).fields@),
            final(self).fields == old(self).fields,
            final(self).color_options == old(self).color_options,
            final(self).send_guess == old(self).send_guess,
            final(self).current_position == old(self).current_position,
            final(self).disabled == old(self).disabled,
            old(self).flash_timer <= 0 ==> final(self).flashing_visible == !old(self).flashing_visible
                && final(self).flash_timer == FLASH_TIMER - 1,
            old(self).flash_timer > 0 ==> final(self).flashing_visible == old(self).flashing_visible
                && final(self).flash_timer == old(self).flash_timer - 1,
            final(self).gui_position_x == old(self).gui_position_x,
            final(self).gui_position_y == old(self).gui_position_y,
    {
        if all_filled(&self.fields) {
            self.ready = true;
        } else {
            self.ready = false;
        }
        if self.flash_timer <= 0 {
            self.flashing_visible = !self.flashing_visible;
            self.flash_timer = FLASH_TIMER;
        }
        self.flash_timer -= 1;
    }

    /// Raises the pending-submit flag, but only from the submit affordance
    /// and only once the guess is ready; anything else is a silent no-op.
    pub fn send_guess(&mut self)
        requires
            old(self).wf(),
        ensures
            final(self).wf(),
            raises_send(*old(self), *final(self)),
    {
        if self.current_position == 4 && self.ready {
            self.send_guess = true
        }
    }

    /// Moves the cursor one step left (`dir == -1`) or right (`dir == 1`),
    /// clamped to the slots and the submit affordance; out-of-range
    /// requests are silent no-ops.
    pub fn move_current_position(&mut self, dir: i32)
        requires
            old(self).wf(),
        ensures
            final(self).wf(),
            moves_cursor(*old(self), *final(self), dir as int),
    {
        if dir == -1 && self.current_position > 0 {
            self.current_position -= 1
        } else if dir == 1 && self.current_position < 4 {
            self.current_position += 1
        }
    }

    /// Cycles the color under the cursor by `dir`; a no-op at the submit
    /// affordance. An empty slot enters the palette cycle at its nearest
    /// end, so a slot never returns to empty by cycling.
    pub fn change_color(&mut self, dir: i32)
        requires
            old(self).wf(),
        ensures
            final(self).wf(),
            cycles_color(*old(self), *final(self), dir as int),
    {
        if self.current_position == 4 {
            return;
        }
        let current = self.fields[self.current_position];
        let next = if current == Colors::Empty {
            if dir == -1 {
                Colors::White
            } else {
                Colors::Red
            }
        } else {
            proof {
                lemma_palette_contents();
            }
            let mut index = palette_position(current);
            if dir == -1 {
                index = (index + self.color_options.len() - 1) % self.color_options.len();
            } else {
                index = (index + self.color_options.len() + 1) % self.color_options.len();
            }
            self.color_options[index]
        };
        proof {
            lemma_palette_contents();
            assert(is_selectable(cycle_color_spec(old(self).fields@[old(
                self,
            ).current_position as int], dir as int)));
        }
        self.fields.set(self.current_position, next);
        self.ready = all_filled(&self.fields);
    }
}

/// Whether every slot of a guess already has a color chosen.
fn all_filled(fields: &Vec<Colors>) -> (r: bool)
    ensures
        r == all_slots_filled(fields@),
{
    let mut i: usize = 0;
    while i < fields.len()
        invariant
            i <= fields.len(),
            all_slots_filled(fields@.take(i as int)),
        decreases fields.len() - i,
    {
        if fields[i] == Colors::Empty {
            proof {
                assert(!all_slots_filled(fields@));
            }
            return false;
        }
        proof {
            assert(fields@.take(i + 1).drop_last() =~= fields@.take(i as int));
            assert(fields@.take(i + 1).last() == fields@[i as int]);
        }
        i += 1;
    }
    proof {
        assert(fields@.take(fields@.len() as int) =~= fields@);
    }
    true
}

} // verus!
