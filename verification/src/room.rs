//! The authoritative per-room game state: players, food, power-ups, grid
//! dimensions and the phase machine Lobby → Countdown → Playing → GameOver.

use vstd::prelude::*;

use crate::geometry::Direction;
use crate::geometry::Point;
use crate::geometry::in_bounds;
use crate::geometry::strictly_inside;
use crate::rng::rand_below;
use crate::snake::INITIAL_SNAKE_LENGTH;
use crate::snake::Snake;
use crate::snake::trail_cell;

verus! {

pub const GRID_WIDTH: i32 = 50;

pub const GRID_HEIGHT: i32 = 35;

/// Every room dimension stays inside these limits; the map sizes on offer
/// are far inside them, and the bot scoring arithmetic depends on them.
pub const MIN_GRID_DIM: i32 = 12;

pub const MAX_GRID_DIM: i32 = 256;

pub const TICK_INTERVAL_MS: u64 = 150;

/// Ticks that make up one second of the countdown, at the fixed interval.
pub const TICKS_PER_SECOND: u32 = 1000 / 150;

pub const COUNTDOWN_DURATION: u8 = 3;

pub const MAX_PLAYERS: usize = 4;

/// The food population a room is seeded with and restocked back towards.
pub const FOOD_COUNT: usize = 3;

pub const FOOD_SPAWN_ATTEMPTS: u32 = 100;

pub const POWERUP_SPAWN_TICKS: u32 = 10000 / 150;

pub const POWERUP_PLACE_ATTEMPTS: u32 = 50;

pub const SPEED_BOOST_TICKS: u32 = 5000 / 150;

pub const SHIELD_TICKS: u32 = 3000 / 150;

pub const PHANTOM_TICKS: u32 = 2000 / 150;

/// Segments granted at once by a Grow power-up.
pub const GROW_SEGMENTS: u32 = 5;

/// More power-ups than this never lie on the grid at once; far above what
/// any offered map could even hold at distinct cells.
pub const POWERUP_CAP: usize = 4096;

#[derive(Clone, Copy, Debug, PartialEq, Eq, Structural)]
pub enum PowerUpType {
    SpeedBoost,
    Shield,
    Grow,
    Phantom,
}

/// A power-up lying on the grid, waiting to be collected.
#[derive(Clone, Copy, Debug, PartialEq, Eq, Structural)]
pub struct PowerUp {
    pub id: u64,
    pub position: Point,
    pub power_type: PowerUpType,
}

/// A timed effect applied to one player. A player holds at most one; a new
/// collection replaces it rather than stacking.
#[derive(Clone, Copy, Debug, PartialEq, Eq, Structural)]
pub struct ActivePowerUp {
    pub power_type: PowerUpType,
    pub ticks_remaining: u32,
}

#[derive(Clone, Copy, Debug, PartialEq, Eq, Structural)]
pub enum BotDifficulty {
    Easy,
    Medium,
    Hard,
}

#[derive(Clone, Copy, Debug, PartialEq, Eq, Structural)]
pub enum GamePhase {
    Lobby,
    Countdown,
    Playing,
    GameOver,
}

pub struct Player {
    pub id: String,
    pub user_id: Option<String>,
    pub access_token: Option<String>,
    pub name: String,
    pub snake: Snake,
    pub ready: bool,
    pub active_power: Option<ActivePowerUp>,
    pub is_bot: bool,
    pub difficulty: Option<BotDifficulty>,
}

pub struct GameState {
    pub phase: GamePhase,
    pub players: Vec<Player>,
    pub food: Vec<Point>,
    pub grid_width: i32,
    pub grid_height: i32,
    pub winner: Option<String>,
    pub countdown: u8,
    pub countdown_ticks: u32,
    pub power_ups: Vec<PowerUp>,
}

/// Ticks an installed timed effect starts with. Grow acts instantly and is
/// never installed, so it carries no duration.
pub open spec fn effect_duration(t: PowerUpType) -> u32 {
    match t {
        PowerUpType::SpeedBoost => SPEED_BOOST_TICKS,
        PowerUpType::Shield => SHIELD_TICKS,
        PowerUpType::Phantom => PHANTOM_TICKS,
        PowerUpType::Grow => 0,
    }
}

/// Ticks an installed timed effect starts with, executably.
pub fn effect_duration_exec(t: PowerUpType) -> (r: u32)
    ensures
        r == effect_duration(t),
{
    match t {
        PowerUpType::SpeedBoost => SPEED_BOOST_TICKS,
        PowerUpType::Shield => SHIELD_TICKS,
        PowerUpType::Phantom => PHANTOM_TICKS,
        PowerUpType::Grow => 0,
    }
}

/// Holding Shield or Ghost exempts the holder from collision death.
pub open spec fn protected(p: Player) -> bool {
    match p.active_power {
        Some(ap) => ap.power_type == PowerUpType::Shield || ap.power_type
            == PowerUpType::Phantom,
        None => false,
    }
}

/// Only Ghost lets a head pass the walls (by wrapping); Shield does not.
pub open spec fn has_phantom(p: Player) -> bool {
    match p.active_power {
        Some(ap) => ap.power_type == PowerUpType::Phantom,
        None => false,
    }
}

/// Whether `pos` is part of any snake's body, dead or alive, any owner.
pub open spec fn occupied(players: Seq<Player>, pos: Point) -> bool {
    exists|i: int| 0 <= i < players.len() && players[i].snake.body@.contains(pos)
}

/// Per-player portion of the room invariant.
pub open spec fn player_wf(p: Player, width: i32, height: i32) -> bool {
    &&& p.snake.wf()
    &&& p.snake.alive ==> forall|k: int|
        0 <= k < p.snake.body@.len() ==> in_bounds(#[trigger] p.snake.body@[k], width, height)
    &&& match p.active_power {
        Some(ap) => ap.ticks_remaining >= 1,
        None => true,
    }
    &&& p.is_bot ==> p.difficulty is Some
}

impl GameState {
    /// The parts of the room invariant that do not look inside players:
    /// grid dimensions in range, distinct player ids, bounded and
    /// strictly-interior food and power-ups at pairwise distinct cells,
    /// and countdown counters in range.
    pub open spec fn base_wf(self) -> bool {
        &&& MIN_GRID_DIM <= self.grid_width <= MAX_GRID_DIM
        &&& MIN_GRID_DIM <= self.grid_height <= MAX_GRID_DIM
        &&& self.players@.len() <= MAX_PLAYERS
        &&& forall|i: int, j: int|
            0 <= i < j < self.players@.len() ==> self.players@[i].id@ != self.players@[j].id@
        &&& self.food@.len() <= FOOD_COUNT
        &&& forall|i: int|
            0 <= i < self.food@.len() ==> strictly_inside(
                (#[trigger] self.food@[i]).x as int,
                self.food@[i].y as int,
                self.grid_width,
                self.grid_height,
            )
        &&& forall|i: int, j: int|
            0 <= i < j < self.food@.len() ==> self.food@[i] != self.food@[j]
        &&& forall|i: int|
            0 <= i < self.power_ups@.len() ==> strictly_inside(
                (#[trigger] self.power_ups@[i]).position.x as int,
                self.power_ups@[i].position.y as int,
                self.grid_width,
                self.grid_height,
            )
        &&& forall|i: int, j: int|
            0 <= i < j < self.power_ups@.len() ==> self.power_ups@[i].position
                != self.power_ups@[j].position && self.power_ups@[i].id != self.power_ups@[j].id
        &&& self.power_ups@.len() <= POWERUP_CAP
        &&& self.countdown <= COUNTDOWN_DURATION
        &&& self.countdown_ticks < TICKS_PER_SECOND
    }

    /// The full room invariant: the structural part above, and every
    /// player well-formed with every living snake entirely on the grid.
    /// Every constructor establishes it and every handler and tick
    /// preserves it.
    pub open spec fn wf(self) -> bool {
        &&& self.base_wf()
        &&& forall|i: int|
            0 <= i < self.players@.len() ==> player_wf(
                #[trigger] self.players@[i],
                self.grid_width,
                self.grid_height,
            )
    }

    /// A fresh room state: empty lobby on the default grid.
    pub fn new() -> (s: GameState)
        ensures
            s.wf(),
            s.phase == GamePhase::Lobby,
            s.players@.len() == 0,
            s.food@.len() == 0,
            s.grid_width == GRID_WIDTH,
            s.grid_height == GRID_HEIGHT,
            s.winner is None,
            s.countdown == 0,
            s.countdown_ticks == 0,
            s.power_ups@.len() == 0,
    {
        GameState {
            phase: GamePhase::Lobby,
            players: Vec::new(),
            food: Vec::new(),
            grid_width: GRID_WIDTH,
            grid_height: GRID_HEIGHT,
            winner: None,
            countdown: 0,
            countdown_ticks: 0,
            power_ups: Vec::new(),
        }
    }

    /// The precomputed spawn cell and heading for a player slot. The four
    /// slots sit against the four edges, each facing inward, and every cell
    /// of the freshly built snake lies on the grid.
    pub fn get_spawn_position(player_index: usize, width: i32, height: i32) -> (r: (
        Point,
        Direction,
    ))
        requires
            MIN_GRID_DIM <= width <= MAX_GRID_DIM,
            MIN_GRID_DIM <= height <= MAX_GRID_DIM,
        ensures
            r == spawn_slot(player_index as int, width, height),
            forall|k: int|
                0 <= k < INITIAL_SNAKE_LENGTH ==> in_bounds(
                    #[trigger] trail_cell(r.0, r.1, k),
                    width,
                    height,
                ),
    {
        match player_index % 4 {
            0 => (Point { x: 5, y: height / 2 }, Direction::Right),
            1 => (Point { x: width - 6, y: height / 2 }, Direction::Left),
            2 => (Point { x: width / 2, y: 5 }, Direction::Down),
            _ => (Point { x: width / 2, y: height - 6 }, Direction::Up),
        }
    }

    /// Tries a bounded number of random cells and places one new food item
    /// on the first that holds no snake segment and no existing food; if
    /// every attempt lands on an occupied cell the food count transiently
    /// stays short, which is the documented saturation behaviour.
    pub fn spawn_food(&mut self)
        requires
            old(self).wf(),
            old(self).food@.len() < FOOD_COUNT,
        ensures
            final(self).wf(),
            *final(self) == (GameState { food: final(self).food, ..*old(self) }),
            final(self).food@.len() == old(self).food@.len() || final(self).food@.len() == old(
                self,
            ).food@.len() + 1,
            final(self).food@.len() == old(self).food@.len() ==> final(self).food == old(
                self,
            ).food,
            final(self).food@.len() == old(self).food@.len() + 1 ==> {
                &&& final(self).food@ == old(self).food@.push(final(self).food@.last())
                &&& strictly_inside(
                    final(self).food@.last().x as int,
                    final(self).food@.last().y as int,
                    old(self).grid_width,
                    old(self).grid_height,
                )
                &&& !occupied(old(self).players@, final(self).food@.last())
                &&& !old(self).food@.contains(final(self).food@.last())
            },
    {
        let w = self.grid_width;
        let h = self.grid_height;
        let mut attempts: u32 = 0;
        while attempts <= FOOD_SPAWN_ATTEMPTS
            invariant
                *self == (GameState { food: self.food, ..*old(self) }),
                self.food == old(self).food,
                self.wf(),
                self.food@.len() < FOOD_COUNT,
                w == self.grid_width,
                h == self.grid_height,
            decreases FOOD_SPAWN_ATTEMPTS + 1 - attempts,
        {
            let x: i32 = 1 + rand_below((w - 2) as u32) as i32;
            let y: i32 = 1 + rand_below((h - 2) as u32) as i32;
            let point = Point { x, y };
            let on_snake = any_snake_at(&self.players, point);
            if !on_snake && !points_contain(&self.food, point) {
                self.food.push(point);
                return ;
            }
            attempts = attempts + 1;
        }
    }
}

/// A slot's spawn cell and heading, as a function of the grid size.
pub open spec fn spawn_slot(player_index: int, width: i32, height: i32) -> (Point, Direction) {
    if player_index % 4 == 0 {
        (Point { x: 5, y: (height / 2) as i32 }, Direction::Right)
    } else if player_index % 4 == 1 {
        (Point { x: (width - 6) as i32, y: (height / 2) as i32 }, Direction::Left)
    } else if player_index % 4 == 2 {
        (Point { x: (width / 2) as i32, y: 5 }, Direction::Down)
    } else {
        (Point { x: (width / 2) as i32, y: (height - 6) as i32 }, Direction::Up)
    }
}

/// Whether any snake segment of any player sits on `pos`.
pub fn any_snake_at(players: &Vec<Player>, pos: Point) -> (r: bool)
    ensures
        r == occupied(players@, pos),
{
    let mut i: usize = 0;
    while i < players.len()
        invariant
            0 <= i <= players@.len(),
            forall|j: int| 0 <= j < i ==> !(#[trigger] players@[j]).snake.body@.contains(pos),
        decreases players@.len() - i,
    {
        if points_contain(&players[i].snake.body, pos) {
            return true;
        }
        i = i + 1;
    }
    false
}

/// Linear membership test on a list of cells.
pub fn points_contain(v: &Vec<Point>, p: Point) -> (r: bool)
    ensures
        r == v@.contains(p),
{
    let mut i: usize = 0;
    while i < v.len()
        invariant
            0 <= i <= v@.len(),
            forall|j: int| 0 <= j < i ==> v@[j] != p,
        decreases v@.len() - i,
    {
        if v[i].x == p.x && v[i].y == p.y {
            assert(v@[i as int] == p);
            return true;
        }
        i = i + 1;
    }
    false
}

impl GameState {
    /// Index of the player with the given id, if any is present.
    pub fn find_player(&self, id: &String) -> (r: Option<usize>)
        ensures
            match r {
                Some(i) => i < self.players@.len() && self.players@[i as int].id@ == id@,
                None => forall|j: int|
                    0 <= j < self.players@.len() ==> (#[trigger] self.players@[j]).id@ != id@,
            },
    {
        let mut i: usize = 0;
        while i < self.players.len()
            invariant
                0 <= i <= self.players@.len(),
                forall|j: int| 0 <= j < i ==> (#[trigger] self.players@[j]).id@ != id@,
            decreases self.players@.len() - i,
        {
            if self.players[i].id == *id {
                return Some(i);
            }
            i = i + 1;
        }
        None
    }
}

} // verus!
