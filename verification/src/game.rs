//! The game's state machine: Menu, Playing and End, stepped once per host
//! frame with the elapsed real time and the key polled that frame. The
//! host owns one `State`, calls `tick` each frame, performs the quit it
//! reports and draws the screen the current mode asks for.

use vstd::prelude::*;
use crate::{FRAME_DURATION, SCREEN_HEIGHT, SCREEN_WIDTH};
use crate::obstacle::Obstacle;
use crate::player::{flapped, player_after_step, Player};

verus! {

/// Which screen the game is on.
#[derive(Clone, Copy, PartialEq, Eq, Structural, Debug)]
pub enum GameMode {
    Menu,
    Playing,
    End,
}

/// The keys the game reacts to; every other key the host polls maps to
/// `Other` and has no effect.
#[derive(Clone, Copy, PartialEq, Eq, Structural, Debug)]
pub enum Key {
    P,
    Q,
    Space,
    Other,
}

/// The whole game: the current mode, the player, the single obstacle, the
/// score, and the real time accumulated toward the next fixed physics
/// step, in tenths of a millisecond.
#[derive(Clone, Copy, PartialEq, Eq, Structural, Debug)]
pub struct State {
    pub mode: GameMode,
    pub player: Player,
    pub frame_time: u32,
    pub obstacle: Obstacle,
    pub score: i32,
}

/// The state after a restart: mode Playing, the physics accumulator and
/// the player reset to their starting values; score and obstacle kept.
pub open spec fn restarted(s: State) -> State {
    State {
        mode: GameMode::Playing,
        frame_time: 0,
        player: Player { x: 5, y: 25, velocity: 0 },
        ..s
    }
}

/// The state after one Playing frame. The elapsed time joins the
/// accumulator; when the sum exceeds the fixed step length, the
/// accumulator resets and one physics step runs. A flap key then takes
/// effect at once, independent of the fixed-step gate. The mode becomes
/// End when the player has fallen past the bottom of the screen.
pub open spec fn played(s: State, elapsed: u32, key: Option<Key>) -> State {
    let stepping = s.frame_time + elapsed > FRAME_DURATION;
    let ft: u32 = if stepping {
        0u32
    } else {
        (s.frame_time + elapsed) as u32
    };
    let p1 = if stepping {
        player_after_step(s.player)
    } else {
        s.player
    };
    let p2 = if key == Some(Key::Space) {
        flapped(p1)
    } else {
        p1
    };
    let mode = if p2.y > SCREEN_HEIGHT {
        GameMode::End
    } else {
        GameMode::Playing
    };
    State { mode, player: p2, frame_time: ft, ..s }
}

/// The state after one frame in any mode. On the Menu and End screens
/// only P (restart) and Q (quit, state untouched) have an effect; every
/// other key, or none, leaves the state as it is.
pub open spec fn ticked(s: State, elapsed: u32, key: Option<Key>) -> State {
    match s.mode {
        GameMode::Playing => played(s, elapsed, key),
        _ => if key == Some(Key::P) {
            restarted(s)
        } else {
            s
        },
    }
}

impl State {
    /// The invariant every reachable state keeps: player and obstacle are
    /// well formed, the accumulator never holds more than one step's
    /// worth, and while the game is being played the player has not yet
    /// fallen past the bottom of the screen.
    pub open spec fn wf(self) -> bool {
        &&& self.player.wf()
        &&& self.obstacle.wf()
        &&& self.frame_time <= FRAME_DURATION
        &&& (self.mode == GameMode::Playing ==> self.player.y <= SCREEN_HEIGHT)
    }

    /// The starting state: the Menu screen, the player at (5, 25) with no
    /// speed, score 0, and one full-width obstacle just off the right edge
    /// of the screen.
    pub fn new() -> (s: State)
        ensures
            s.mode == GameMode::Menu,
            s.player == (Player { x: 5, y: 25, velocity: 0 }),
            s.frame_time == 0,
            s.score == 0,
            s.obstacle == (Obstacle { x: SCREEN_WIDTH, gap_y: 10, size: 20 }),
            s.wf(),
    {
        State {
            mode: GameMode::Menu,
            player: Player::new(5, 25),
            frame_time: 0,
            score: 0,
            obstacle: Obstacle::new(SCREEN_WIDTH, 0),
        }
    }

    /// Begin a new life: back to the Playing screen with the starting
    /// player and an empty accumulator. The score and the obstacle are
    /// left as they are.
    pub fn restart(&mut self)
        ensures
            *final(self) == restarted(*old(self)),
    {
        self.mode = GameMode::Playing;
        self.frame_time = 0;
        self.player = Player::new(5, 25);
    }

    /// One frame on the Menu screen: P starts a new game, Q asks the host
    /// to quit, anything else does nothing.
    pub fn main_menu(&mut self, key: Option<Key>) -> (quit: bool)
        ensures
            *final(self) == (if key == Some(Key::P) {
                restarted(*old(self))
            } else {
                *old(self)
            }),
            quit == (key == Some(Key::Q)),
    {
        match key {
            Some(Key::P) => {
                self.restart();
                false
            },
            Some(Key::Q) => true,
            _ => false,
        }
    }

    /// One frame on the End screen: the same choices as the menu, P for
    /// another life and Q to quit.
    pub fn dead(&mut self, key: Option<Key>) -> (quit: bool)
        ensures
            *final(self) == (if key == Some(Key::P) {
                restarted(*old(self))
            } else {
                *old(self)
            }),
            quit == (key == Some(Key::Q)),
    {
        match key {
            Some(Key::P) => {
                self.restart();
                false
            },
            Some(Key::Q) => true,
            _ => false,
        }
    }

    /// One frame of play: accumulate `elapsed`, run a physics step when a
    /// full step's worth has built up, apply a flap at once if Space was
    /// polled, and end the life once the player falls past the bottom of
    /// the screen.
    pub fn play(&mut self, elapsed: u32, key: Option<Key>)
        requires
            old(self).wf(),
            old(self).mode == GameMode::Playing,
            old(self).player.x < i32::MAX,
            elapsed <= u32::MAX - FRAME_DURATION,
        ensures
            *final(self) == played(*old(self), elapsed, key),
            final(self).wf(),
    {
        self.frame_time = self.frame_time + elapsed;
        if self.frame_time > FRAME_DURATION {
            self.frame_time = 0;
            self.player.gravity_and_move();
        }
        let flap_now = (match key {
            Some(Key::Space) => true,
            _ => false,
        });
        if flap_now {
            self.player.flap();
        }
        if self.player.y > SCREEN_HEIGHT {
            self.mode = GameMode::End;
        }
    }

    /// One frame of the whole game, whatever screen it is on; returns
    /// whether the host should quit, which only Q on the Menu or End
    /// screen asks for.
    pub fn tick(&mut self, elapsed: u32, key: Option<Key>) -> (quit: bool)
        requires
            old(self).wf(),
            old(self).player.x < i32::MAX,
            elapsed <= u32::MAX - FRAME_DURATION,
        ensures
            *final(self) == ticked(*old(self), elapsed, key),
            final(self).wf(),
            quit == (old(self).mode != GameMode::Playing && key == Some(Key::Q)),
    {
        match self.mode {
            GameMode::Menu => self.main_menu(key),
            GameMode::Playing => {
                self.play(elapsed, key);
                false
            },
            GameMode::End => self.dead(key),
        }
    }

    /// Whether the state satisfies the game's invariant; lets the host
    /// test `wf` before handing the state back in.
    pub fn is_well_formed(&self) -> (r: bool)
        ensures
            r == self.wf(),
    {
        let player_ok = 0 <= self.player.y && crate::player::FLAP_VELOCITY <= self.player.velocity
            && self.player.velocity <= crate::player::TERMINAL_VELOCITY;
        let obstacle_ok = self.obstacle.gap_y == crate::obstacle::GAP_CENTER && 2 <= self.obstacle.size
            && self.obstacle.size <= 20;
        let mode_ok = (match self.mode {
            GameMode::Playing => self.player.y <= SCREEN_HEIGHT,
            _ => true,
        });
        player_ok && obstacle_ok && self.frame_time <= FRAME_DURATION && mode_ok
    }
}

} // verus!
