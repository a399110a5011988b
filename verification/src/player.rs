//! The player entity: a position on the grid and a vertical speed, mutated
//! once per fixed physics step by gravity and on input by a flap impulse.

use vstd::prelude::*;

verus! {

/// Vertical speed is stored in fifths of a row per physics step, so one
/// unit stands for 0.2 rows. Gravity adds one unit per step.
pub const VELOCITY_UNIT: i32 = 5;

/// Fastest downward speed gravity can reach: 2 rows per step.
pub const TERMINAL_VELOCITY: i32 = 10;

/// Speed a flap sets, unconditionally: 2 rows per step upward.
pub const FLAP_VELOCITY: i32 = -10;

/// The player: `x` is the world-space distance travelled, `y` the vertical
/// row (0 is the top of the screen), `velocity` the vertical speed in
/// fifths of a row per step (positive is downward).
#[derive(Clone, Copy, PartialEq, Eq, Structural, Debug)]
pub struct Player {
    pub x: i32,
    pub y: i32,
    pub velocity: i32,
}

/// The vertical motion of a player, free of machine bounds: row and speed.
pub struct Motion {
    pub y: int,
    pub velocity: int,
}

/// Rows fallen in one step at speed `v`: `v` fifths of a row, truncated
/// toward zero.
pub open spec fn fall_delta(v: int) -> int {
    if v >= 0 {
        v / (VELOCITY_UNIT as int)
    } else {
        -((-v) / (VELOCITY_UNIT as int))
    }
}

/// One physics step on the vertical motion: gravity accelerates by one
/// unit up to the terminal velocity, the row moves by the fallen amount
/// and is clamped to the top of the screen.
pub open spec fn motion_step(m: Motion) -> Motion {
    let v: int = if m.velocity < TERMINAL_VELOCITY {
        m.velocity + 1
    } else {
        m.velocity
    };
    let y: int = m.y + fall_delta(v);
    Motion { y: if y < 0 { 0 } else { y }, velocity: v }
}

/// `n` physics steps on the vertical motion.
pub open spec fn motion_step_n(m: Motion, n: nat) -> Motion
    decreases n,
{
    if n == 0 {
        m
    } else {
        motion_step(motion_step_n(m, (n - 1) as nat))
    }
}

/// The vertical motion a player currently has.
pub open spec fn motion_of(p: Player) -> Motion {
    Motion { y: p.y as int, velocity: p.velocity as int }
}

/// The player after one physics step: the vertical motion steps, the
/// horizontal position advances by one column.
pub open spec fn player_after_step(p: Player) -> Player {
    let m = motion_step(motion_of(p));
    Player { x: (p.x + 1) as i32, y: m.y as i32, velocity: m.velocity as i32 }
}

/// The player after a flap: the speed becomes `FLAP_VELOCITY`, nothing
/// else changes.
pub open spec fn flapped(p: Player) -> Player {
    Player { velocity: FLAP_VELOCITY, ..p }
}

impl Player {
    /// The player never leaves the screen upward and gravity and flap keep
    /// the speed between the flap impulse and the terminal velocity.
    pub open spec fn wf(self) -> bool {
        &&& 0 <= self.y
        &&& FLAP_VELOCITY <= self.velocity <= TERMINAL_VELOCITY
    }

    pub fn new(x: i32, y: i32) -> (p: Player)
        ensures
            p.x == x,
            p.y == y,
            p.velocity == 0,
    {
        Player { x, y, velocity: 0 }
    }

    /// One fixed physics step: accelerate downward up to the terminal
    /// velocity, fall by the speed truncated to whole rows, advance one
    /// column, and clamp the row to the top of the screen.
    pub fn gravity_and_move(&mut self)
        requires
            old(self).wf(),
            old(self).x < i32::MAX,
            old(self).y + 2 <= i32::MAX,
        ensures
            *final(self) == player_after_step(*old(self)),
            final(self).wf(),
    {
        if self.velocity < TERMINAL_VELOCITY {
            self.velocity = self.velocity + 1;
        }
        let delta: i32 = if self.velocity >= 0 {
            self.velocity / VELOCITY_UNIT
        } else {
            -((-self.velocity) / VELOCITY_UNIT)
        };
        self.y = self.y + delta;
        self.x = self.x + 1;
        if self.y < 0 {
            self.y = 0;
        }
    }

    /// An upward impulse: the speed becomes `FLAP_VELOCITY` whatever it
    /// was; position is untouched.
    pub fn flap(&mut self)
        ensures
            *final(self) == flapped(*old(self)),
    {
        self.velocity = FLAP_VELOCITY;
    }
}

/// One physics step keeps the player well formed.
pub proof fn lemma_step_preserves_wf(m: Motion)
    requires
        0 <= m.y,
        FLAP_VELOCITY <= m.velocity <= TERMINAL_VELOCITY,
    ensures
        0 <= motion_step(m).y,
        FLAP_VELOCITY <= motion_step(m).velocity <= TERMINAL_VELOCITY,
{
}

/// However many physics steps run from a well-formed start, the speed
/// never exceeds the terminal velocity and the row never goes below zero.
pub proof fn lemma_motion_stays_bounded(m: Motion, n: nat)
    requires
        0 <= m.y,
        FLAP_VELOCITY <= m.velocity <= TERMINAL_VELOCITY,
    ensures
        motion_step_n(m, n).velocity <= TERMINAL_VELOCITY,
        FLAP_VELOCITY <= motion_step_n(m, n).velocity,
        0 <= motion_step_n(m, n).y,
    decreases n,
{
    if n > 0 {
        lemma_motion_stays_bounded(m, (n - 1) as nat);
        lemma_step_preserves_wf(motion_step_n(m, (n - 1) as nat));
    }
}

} // verus!
