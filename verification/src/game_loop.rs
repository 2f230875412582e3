//! The timing decisions of the game loop: how long a frame lasts, and what
//! happens when one is due.

use vstd::prelude::*;
use crate::player::Player;

verus! {

/// The frame rate that the game aims at, in frames per second.
pub const TARGET_FPS: i32 = 60;

/// Where the player starts, from the left edge of the window.
pub const START_X: i32 = 100;

/// Where the player starts, from the top edge of the window.
pub const START_Y: i32 = 100;

/// The frame threshold for `fps` frames per second, as a mathematical value.
///
/// The whole quotient of one second by the rate is taken first and only
/// then scaled to milliseconds. So the threshold is a full second at one
/// frame per second, and zero at every higher rate: the loop then updates
/// and draws whenever any time at all has passed.
pub open spec fn frame_threshold(fps: int) -> int {
    if fps == 1 {
        1000
    } else if fps == -1 {
        -1000
    } else {
        0
    }
}

/// The frame threshold in milliseconds for `fps` frames per second.
pub fn frame_time_ms(fps: i32) -> (ms: i32)
    requires
        fps != 0,
    ensures
        ms == frame_threshold(fps as int),
{
    let per_frame: i32 = 1i32.checked_div(fps).unwrap();
    assert(fps >= 2 ==> 1int / (fps as int) == 0) by (nonlinear_arith);
    assert(fps <= -2 ==> 1int / ((fps as int) * -1) == 0) by (nonlinear_arith);
    per_frame * 1000
}

/// Whether a frame is due: strictly more time has passed than the threshold.
pub open spec fn frame_due(frame_time_ms: int, elapsed_ms: int) -> bool {
    frame_time_ms < elapsed_ms
}

/// What one pass of the loop did, once the pending events were taken.
#[derive(Clone, Copy, Debug, PartialEq, Eq, Structural)]
pub enum Tick {
    /// No frame is due yet. Nothing changed and nothing is to be drawn.
    Wait,
    /// A frame is due and the player made its movement update.
    Moved,
    /// A frame is due, but the update would have carried the player past
    /// the edge of the grid. The player stays where it is.
    Held,
}

impl Tick {
    /// The outcome that is owed for a player and two clock readings.
    pub open spec fn of(player: Player, frame_time_ms: int, elapsed_ms: int) -> Tick {
        if !frame_due(frame_time_ms, elapsed_ms) {
            Tick::Wait
        } else if player.move_fits() {
            Tick::Moved
        } else {
            Tick::Held
        }
    }
}

/// One pass of the loop after the pending events were taken.
///
/// Where a frame is due, the player makes one movement update, as far as
/// the grid allows it. On `Moved` and on `Held` the caller draws the frame
/// and restarts its clock; on `Wait` it takes the next events.
pub fn tick(player: &mut Player, frame_time_ms: i32, elapsed_ms: i32) -> (outcome: Tick)
    ensures
        outcome == Tick::of(*old(player), frame_time_ms as int, elapsed_ms as int),
        final(player)@ == (if outcome == Tick::Moved {
            old(player)@.step()
        } else {
            old(player)@
        }),
{
    if frame_time_ms < elapsed_ms {
        if player.can_move() {
            player.move_player(elapsed_ms);
            Tick::Moved
        } else {
            Tick::Held
        }
    } else {
        Tick::Wait
    }
}

} // verus!
