//! The obstacle: a pair of vertical wall segments with a gap between them,
//! sized by the current score, with collision detection against the player.

use vstd::prelude::*;
use crate::SCREEN_HEIGHT;
use crate::player::Player;

verus! {

/// Row of the centre of the gap; fixed for every obstacle.
pub const GAP_CENTER: i32 = 10;

/// The obstacle: world-space column `x`, gap centred at row `gap_y`, and
/// the gap's `size` in rows. Half of `size` (rounded down) extends to each
/// side of the centre.
#[derive(Clone, Copy, PartialEq, Eq, Structural, Debug)]
pub struct Obstacle {
    pub x: i32,
    pub gap_y: i32,
    pub size: i32,
}

impl Obstacle {
    /// The gap sits at the fixed centre row and its size stays between the
    /// floor of 2 and the starting width of 20.
    pub open spec fn wf(self) -> bool {
        &&& self.gap_y == GAP_CENTER
        &&& 2 <= self.size <= 20
    }

    /// Half the gap size, rounded down.
    pub open spec fn half_size(self) -> int {
        (self.size as int) / 2
    }

    /// Whether row `y` lies strictly outside the gap's half-size window
    /// around the centre. The two boundary rows count as inside.
    pub open spec fn outside_gap(self, y: int) -> bool {
        y < self.gap_y - self.half_size() || y > self.gap_y + self.half_size()
    }

    /// The cells the walls occupy on screen when the player has travelled
    /// `player_x` columns: one column of glyphs at the obstacle's
    /// screen-space position, every row above the gap, and every row from
    /// the gap's lower edge to the bottom of the screen.
    pub open spec fn wall_cells(self, player_x: int) -> Seq<(i32, i32)> {
        let sx = (self.x - player_x) as i32;
        let top: int = self.gap_y - self.half_size();
        let bottom: int = self.gap_y + self.half_size();
        Seq::new(top as nat, |i: int| (sx, i as i32)) + Seq::new(
            (SCREEN_HEIGHT - bottom) as nat,
            |i: int| (sx, (bottom + i) as i32),
        )
    }

    /// A new obstacle at column `x`: the gap is centred at the fixed row
    /// and its size is `max(2, 20 - score)`, so it narrows as the score
    /// grows, floored at 2.
    pub fn new(x: i32, score: i32) -> (o: Obstacle)
        requires
            0 <= score,
        ensures
            o.x == x,
            o.gap_y == GAP_CENTER,
            o.size == vstd::math::max(2, 20 - score),
            o.wf(),
    {
        let size: i32 = if 20 - score >= 2 {
            20 - score
        } else {
            2
        };
        Obstacle { x, gap_y: GAP_CENTER, size }
    }

    /// The wall cells to draw, in screen space, top row first. The host
    /// puts a wall glyph at each returned `(column, row)` pair.
    pub fn render(&self, player_x: i32) -> (cells: Vec<(i32, i32)>)
        requires
            self.wf(),
            i32::MIN <= self.x - player_x <= i32::MAX,
        ensures
            cells@ == self.wall_cells(player_x as int),
    {
        let screen_x: i32 = self.x - player_x;
        let half_size: i32 = self.size / 2;
        let top: i32 = self.gap_y - half_size;
        let bottom: i32 = self.gap_y + half_size;
        let mut cells: Vec<(i32, i32)> = Vec::new();
        let mut y: i32 = 0;
        while y < top
            invariant
                0 <= y <= top,
                top == self.gap_y - self.half_size(),
                cells@.len() == y,
                forall|i: int| 0 <= i < y ==> cells@[i] == (screen_x, i as i32),
            decreases top - y,
        {
            cells.push((screen_x, y));
            y = y + 1;
        }
        let mut y2: i32 = bottom;
        while y2 < SCREEN_HEIGHT
            invariant
                self.wf(),
                top == self.gap_y - self.half_size(),
                bottom == self.gap_y + self.half_size(),
                bottom <= y2 <= SCREEN_HEIGHT,
                cells@.len() == top + y2 - bottom,
                forall|i: int| 0 <= i < top ==> cells@[i] == (screen_x, i as i32),
                forall|i: int|
                    top <= i < cells@.len() ==> cells@[i] == (screen_x, (bottom + i - top) as i32),
            decreases SCREEN_HEIGHT - y2,
        {
            cells.push((screen_x, y2));
            y2 = y2 + 1;
        }
        proof {
            assert(cells@ =~= self.wall_cells(player_x as int));
        }
        cells
    }

    /// Whether the player has collided with the obstacle: true exactly
    /// when the player has reached the obstacle's column and sits strictly
    /// outside the gap.
    pub fn hit_obstacle(&self, player: &Player) -> (hit: bool)
        requires
            self.wf(),
        ensures
            hit == (self.x == player.x && self.outside_gap(player.y as int)),
    {
        let reach_x = self.x == player.x;
        let half_size: i32 = self.size / 2;
        let hit_upper = player.y < self.gap_y - half_size;
        let hit_lower = player.y > self.gap_y + half_size;
        reach_x && (hit_lower || hit_upper)
    }
}

} // verus!
