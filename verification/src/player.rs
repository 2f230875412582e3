//! The player: where it stands, which controls are held, and how one update
//! moves it.

use vstd::prelude::*;

verus! {

/// A point, or a displacement, on the integer grid.
#[derive(Clone, Copy, Debug, PartialEq, Eq, Structural)]
pub struct Vector2i {
    pub x: i32,
    pub y: i32,
}

/// The player as a mathematical value: unbounded coordinates and the five
/// control flags.
pub struct PlayerState {
    pub x: int,
    pub y: int,
    pub vx: int,
    pub vy: int,
    pub left: bool,
    pub right: bool,
    pub up: bool,
    pub down: bool,
    pub jump: bool,
}

impl PlayerState {
    /// A player at rest at `(x, y)` with no control held.
    pub open spec fn at(x: int, y: int) -> PlayerState {
        PlayerState {
            x,
            y,
            vx: 0,
            vy: 0,
            left: false,
            right: false,
            up: false,
            down: false,
            jump: false,
        }
    }

    /// Horizontal displacement of one update: one unit to the right for
    /// `right`, one unit to the left for `left`.
    pub open spec fn dx(self) -> int {
        (if self.right { 1int } else { 0int }) - (if self.left { 1int } else { 0int })
    }

    /// Vertical displacement of one update: one unit downwards (larger `y`)
    /// for `down`, one unit upwards for `up`.
    pub open spec fn dy(self) -> int {
        (if self.down { 1int } else { 0int }) - (if self.up { 1int } else { 0int })
    }

    /// The player after one update. Only the position changes.
    pub open spec fn step(self) -> PlayerState {
        PlayerState { x: self.x + self.dx(), y: self.y + self.dy(), ..self }
    }

    /// The player after `n` updates in a row.
    pub open spec fn steps(self, n: nat) -> PlayerState
        decreases n,
    {
        if n == 0 {
            self
        } else {
            self.step().steps((n - 1) as nat)
        }
    }

    /// This player with the jump control set to `held`.
    pub open spec fn with_jump(self, held: bool) -> PlayerState {
        PlayerState { jump: held, ..self }
    }

    /// No direction is held.
    pub open spec fn idle(self) -> bool {
        !self.left && !self.right && !self.up && !self.down
    }
}

/// With right held alone, one update moves the player one unit to the right
/// and leaves `y` as it was.
pub proof fn lemma_right_moves_one_right(s: PlayerState)
    requires
        s.right,
        !s.left,
        !s.up,
        !s.down,
    ensures
        s.step().x == s.x + 1,
        s.step().y == s.y,
{
}

/// With left and right held together, and neither up nor down, one update
/// leaves the player where it was.
pub proof fn lemma_left_and_right_cancel(s: PlayerState)
    requires
        s.left,
        s.right,
        !s.up,
        !s.down,
    ensures
        s.step() == s,
{
}

/// With up and left held together, and neither of their opposites, one
/// update moves the player one unit up and one unit to the left: the full
/// unit on each axis.
pub proof fn lemma_up_and_left_move_diagonally(s: PlayerState)
    requires
        s.up,
        s.left,
        !s.down,
        !s.right,
    ensures
        s.step().x == s.x - 1,
        s.step().y == s.y - 1,
{
}

/// Whatever the jump control is set to, any number of updates moves the
/// player exactly as it would have moved otherwise.
pub proof fn lemma_jump_is_ignored(s: PlayerState, held: bool, n: nat)
    ensures
        s.with_jump(held).steps(n) == s.steps(n).with_jump(held),
    decreases n,
{
    if n > 0 {
        assert(s.with_jump(held).step() == s.step().with_jump(held));
        lemma_jump_is_ignored(s.step(), held, (n - 1) as nat);
    }
}

/// With jump held and no direction, no number of updates changes the player.
pub proof fn lemma_jump_never_moves(s: PlayerState, n: nat)
    requires
        s.jump,
        s.idle(),
    ensures
        s.steps(n) == s,
    decreases n,
{
    if n > 0 {
        assert(s.step() == s);
        lemma_jump_never_moves(s, (n - 1) as nat);
    }
}

/// After `n` updates the player has moved by `n` times the displacement of
/// one update, and nothing else about it has changed.
pub proof fn lemma_steps_displacement(s: PlayerState, n: nat)
    ensures
        s.steps(n) == (PlayerState { x: s.x + n * s.dx(), y: s.y + n * s.dy(), ..s }),
    decreases n,
{
    if n > 0 {
        let m = (n - 1) as nat;
        lemma_steps_displacement(s.step(), m);
        assert(s.step().dx() == s.dx() && s.step().dy() == s.dy());
        assert(s.x + s.dx() + m * s.dx() == s.x + n * s.dx()) by (nonlinear_arith)
            requires
                m + 1 == n,
        ;
        assert(s.y + s.dy() + m * s.dy() == s.y + n * s.dy()) by (nonlinear_arith)
            requires
                m + 1 == n,
        ;
    } else {
        assert(n * s.dx() == 0 && n * s.dy() == 0);
    }
}

/// The player-controlled entity.
///
/// `position` is the one authoritative coordinate; whatever draws the player
/// is placed from it after each update. `velocity` and `control_jump` are
/// kept but take no part in movement.
#[derive(Clone, Copy, Debug, PartialEq, Eq, Structural)]
pub struct Player {
    pub position: Vector2i,
    pub velocity: Vector2i,
    pub control_left: bool,
    pub control_right: bool,
    pub control_up: bool,
    pub control_down: bool,
    pub control_jump: bool,
}

impl View for Player {
    type V = PlayerState;

    open spec fn view(&self) -> PlayerState {
        PlayerState {
            x: self.position.x as int,
            y: self.position.y as int,
            vx: self.velocity.x as int,
            vy: self.velocity.y as int,
            left: self.control_left,
            right: self.control_right,
            up: self.control_up,
            down: self.control_down,
            jump: self.control_jump,
        }
    }
}

impl Player {
    /// A new player standing at `(x, y)`, at rest, with every control
    /// released.
    pub fn new(x: i32, y: i32) -> (player: Player)
        ensures
            player@ == PlayerState::at(x as int, y as int),
    {
        Player {
            position: Vector2i { x, y },
            velocity: Vector2i { x: 0, y: 0 },
            control_left: false,
            control_right: false,
            control_up: false,
            control_down: false,
            control_jump: false,
        }
    }

    /// Whether the position after one update still fits the coordinates'
    /// machine range.
    pub open spec fn move_fits(&self) -> bool {
        &&& i32::MIN <= self@.step().x <= i32::MAX
        &&& i32::MIN <= self@.step().y <= i32::MAX
    }

    /// Tells whether `move_player` may be called in the present state.
    pub fn can_move(&self) -> (fits: bool)
        ensures
            fits == self.move_fits(),
    {
        let x_fits = if self.control_left == self.control_right {
            true
        } else if self.control_right {
            self.position.x < i32::MAX
        } else {
            self.position.x > i32::MIN
        };
        let y_fits = if self.control_down == self.control_up {
            true
        } else if self.control_down {
            self.position.y < i32::MAX
        } else {
            self.position.y > i32::MIN
        };
        x_fits && y_fits
    }

    /// One movement update.
    ///
    /// Each held direction displaces the player by exactly one unit, one
    /// after the other, each starting from where the one before left the
    /// player: left, right, down, up. Opposite directions held together
    /// cancel; a horizontal and a vertical one held together both apply.
    /// The jump control and the elapsed time play no part, and nothing but
    /// the position changes.
    pub fn move_player(&mut self, _delta_time_ms: i32)
        requires
            old(self).move_fits(),
        ensures
            final(self)@ == old(self)@.step(),
    {
        let mut x: i64 = self.position.x as i64;
        let mut y: i64 = self.position.y as i64;
        if self.control_left {
            x = x - 1;
        }
        if self.control_right {
            x = x + 1;
        }
        if self.control_down {
            y = y + 1;
        }
        if self.control_up {
            y = y - 1;
        }
        self.position = Vector2i { x: x as i32, y: y as i32 };
    }
}

} // verus!
