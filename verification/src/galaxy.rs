//! Value types of the tile-matching puzzle game that shares the process:
//! the gem palette, a recorded move, and per-session statistics. The
//! puzzle engine itself is a separate subsystem; these are the plain
//! values that cross its boundary.

use vstd::prelude::*;

use crate::rng::rand_below;

verus! {

#[derive(Clone, Copy, Debug, PartialEq, Eq, Structural, Hash)]
pub enum GemType {
    Red,
    Blue,
    Green,
    Yellow,
    Purple,
    Orange,
    Pink,
    Empty,
}

impl GemType {
    /// A uniformly drawn gem; the empty marker is never drawn.
    pub fn random() -> (r: GemType)
        ensures
            r != GemType::Empty,
    {
        match rand_below(7) {
            0 => GemType::Red,
            1 => GemType::Blue,
            2 => GemType::Green,
            3 => GemType::Yellow,
            4 => GemType::Purple,
            5 => GemType::Orange,
            _ => GemType::Pink,
        }
    }

    /// The display color of this gem.
    pub fn color_code(&self) -> (r: &'static str)
        ensures
            r@ == self.color_code_spec(),
    {
        match self {
            GemType::Red => "#EF4444",
            GemType::Blue => "#3B82F6",
            GemType::Green => "#10B981",
            GemType::Yellow => "#F59E0B",
            GemType::Purple => "#8B5CF6",
            GemType::Orange => "#F97316",
            GemType::Pink => "#EC4899",
            GemType::Empty => "#000000",
        }
    }

    pub open spec fn color_code_spec(self) -> Seq<char> {
        match self {
            GemType::Red => "#EF4444"@,
            GemType::Blue => "#3B82F6"@,
            GemType::Green => "#10B981"@,
            GemType::Yellow => "#F59E0B"@,
            GemType::Purple => "#8B5CF6"@,
            GemType::Orange => "#F97316"@,
            GemType::Pink => "#EC4899"@,
            GemType::Empty => "#000000"@,
        }
    }

    /// Whether this cell value is the empty marker.
    pub fn is_empty(&self) -> (r: bool)
        ensures
            r == (*self == GemType::Empty),
    {
        matches!(self, GemType::Empty)
    }
}

/// One recorded swap.
#[derive(Clone, Copy, Debug)]
pub struct Move {
    pub from_x: usize,
    pub from_y: usize,
    pub to_x: usize,
    pub to_y: usize,
    pub timestamp: u64,
}

/// Per-session statistics.
#[derive(Clone, Copy, Debug)]
pub struct GameStats {
    pub total_score: u32,
    pub moves_made: u32,
    pub matches_found: u32,
    pub largest_combo: u32,
    pub power_ups_used: u32,
    pub time_elapsed: u64,
    pub level: u32,
}

impl Default for GameStats {
    /// A fresh session: everything at zero, on the first level.
    fn default() -> (r: GameStats)
        ensures
            r.total_score == 0,
            r.moves_made == 0,
            r.matches_found == 0,
            r.largest_combo == 0,
            r.power_ups_used == 0,
            r.time_elapsed == 0,
            r.level == 1,
    {
        GameStats {
            total_score: 0,
            moves_made: 0,
            matches_found: 0,
            largest_combo: 0,
            power_ups_used: 0,
            time_elapsed: 0,
            level: 1,
        }
    }
}

} // verus!
