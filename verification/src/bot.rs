//! Bot decision making: a pure function of the current room state to a
//! desired heading, one call per live bot per tick. Bots observe the same
//! state a human client sees and their choice is funneled through the same
//! `set_direction` entry point as human input, so the anti-reversal rule
//! binds them equally.
//!
//! The Hard tier's scoring — minus the grid distance to food, a tenth of
//! a point per reachable free cell, two points per nearby power-up — is
//! carried in tenths of a point, so the whole evaluation stays in
//! integers.

use vstd::prelude::*;

use crate::geometry::Direction;
use crate::geometry::Point;
use crate::geometry::abs_int;
use crate::geometry::manhattan;
use crate::geometry::step_x;
use crate::geometry::step_y;
use crate::geometry::strictly_inside;
use crate::rng::rand_below;
use crate::room::BotDifficulty;
use crate::room::GameState;
use crate::room::any_snake_at;
use crate::room::occupied;

verus! {

/// Cells visited by the bounded flood fill before it gives up.
pub const FLOOD_LIMIT: u32 = 10;

/// Score, in tenths, of a heading that runs into a wall or a body next
/// tick; it never beats any survivable heading and never replaces the
/// incumbent either, since the fold below only replaces on a strict
/// improvement over exactly this value.
pub const DISQUALIFIED_SCORE: i64 = -10000;

/// The up-to-three headings that are not the reverse of `current`, in the
/// fixed enumeration order the tie-breaking of the Hard tier depends on.
pub open spec fn valid_turns_spec(current: Direction) -> Seq<Direction> {
    match current {
        Direction::Up => seq![Direction::Up, Direction::Left, Direction::Right],
        Direction::Down => seq![Direction::Down, Direction::Left, Direction::Right],
        Direction::Left => seq![Direction::Left, Direction::Up, Direction::Down],
        Direction::Right => seq![Direction::Right, Direction::Up, Direction::Down],
    }
}

/// The heading that closes the larger of the two axis gaps from `(fx, fy)`
/// to `(tx, ty)`, ties going to the vertical axis.
pub open spec fn dir_toward(fx: int, fy: int, tx: int, ty: int) -> Direction {
    let dx = tx - fx;
    let dy = ty - fy;
    if abs_int(dx) > abs_int(dy) {
        if dx > 0 {
            Direction::Right
        } else {
            Direction::Left
        }
    } else if dy > 0 {
        Direction::Down
    } else {
        Direction::Up
    }
}

/// A heading is safe when the stepped-to cell is strictly inside the walls
/// and free of every snake segment, whoever owns it.
pub open spec fn safe_spec(s: GameState, head: Point, d: Direction) -> bool {
    let nx = step_x(head, d);
    let ny = step_y(head, d);
    strictly_inside(nx, ny, s.grid_width, s.grid_height) && !occupied(
        s.players@,
        Point { x: nx as i32, y: ny as i32 },
    )
}

pub open spec fn flood_dir(k: int) -> Direction {
    if k == 0 {
        Direction::Up
    } else if k == 1 {
        Direction::Down
    } else if k == 2 {
        Direction::Left
    } else {
        Direction::Right
    }
}

/// One expansion step of the flood fill: the four neighbours of `pos`, in
/// enumeration order, are appended to the queue and the visited list when
/// new, strictly inside the walls and unoccupied.
pub open spec fn flood_expand(
    s: GameState,
    queue: Seq<Point>,
    visited: Seq<Point>,
    pos: Point,
    k: int,
) -> (Seq<Point>, Seq<Point>)
    decreases 4 - k,
{
    if k < 0 || k >= 4 {
        (queue, visited)
    } else {
        let d = flood_dir(k);
        let nx = step_x(pos, d);
        let ny = step_y(pos, d);
        let np = Point { x: nx as i32, y: ny as i32 };
        if strictly_inside(nx, ny, s.grid_width, s.grid_height) && !visited.contains(np)
            && !occupied(s.players@, np) {
            flood_expand(s, queue.push(np), visited.push(np), pos, k + 1)
        } else {
            flood_expand(s, queue, visited, pos, k + 1)
        }
    }
}

/// The bounded breadth-first count of free cells: pops the cell at `qi`,
/// counts it, stops at the visit limit, otherwise expands its neighbours
/// and continues.
pub open spec fn flood_count(
    s: GameState,
    queue: Seq<Point>,
    qi: int,
    visited: Seq<Point>,
    count: int,
) -> int
    decreases FLOOD_LIMIT - count,
{
    if qi < 0 || qi >= queue.len() {
        count
    } else {
        let c1 = count + 1;
        if c1 >= FLOOD_LIMIT {
            c1
        } else {
            let expanded = flood_expand(s, queue, visited, queue[qi], 0);
            flood_count(s, expanded.0, qi + 1, expanded.1, c1)
        }
    }
}

/// Free cells reachable from `start` within the bounded flood fill; the
/// open-space term of the Hard tier's score.
pub open spec fn reachable_estimate(s: GameState, start: Point) -> int {
    flood_count(s, seq![start], 0, seq![start], 0)
}

/// Two points (in tenths: 20) for every power-up lying within distance 5
/// of the stepped-to cell, counted from index `i` on.
pub open spec fn powerup_bonus_from(
    s: GameState,
    nx: int,
    ny: int,
    i: int,
) -> int
    decreases s.power_ups@.len() - i,
{
    if i < 0 || i >= s.power_ups@.len() {
        0
    } else {
        (if manhattan(s.power_ups@[i].position.x as int, s.power_ups@[i].position.y as int, nx, ny)
            < 5 {
            20int
        } else {
            0int
        }) + powerup_bonus_from(s, nx, ny, i + 1)
    }
}

/// The Hard tier's score of one heading, in tenths of a point: lethal
/// outcomes are disqualified outright; otherwise closer food, more open
/// space and nearby power-ups all raise the score.
pub open spec fn eval_direction(s: GameState, head: Point, d: Direction, target: Point) -> int {
    let nx = step_x(head, d);
    let ny = step_y(head, d);
    let np = Point { x: nx as i32, y: ny as i32 };
    if !strictly_inside(nx, ny, s.grid_width, s.grid_height) || occupied(s.players@, np) {
        DISQUALIFIED_SCORE as int
    } else {
        -10 * manhattan(target.x as int, target.y as int, nx, ny) + reachable_estimate(s, np)
            + powerup_bonus_from(s, nx, ny, 0)
    }
}

/// Left fold of the Hard tier's choice over the candidate headings from
/// index `i` on: a candidate replaces the incumbent only when its score is
/// strictly greater, so earlier candidates win ties.
pub open spec fn best_turn_from(
    s: GameState,
    head: Point,
    target: Point,
    turns: Seq<Direction>,
    i: int,
    best_d: Direction,
    best_score: int,
) -> Direction
    decreases turns.len() - i,
{
    if i < 0 || i >= turns.len() {
        best_d
    } else {
        let sc = eval_direction(s, head, turns[i], target);
        if sc > best_score {
            best_turn_from(s, head, target, turns, i + 1, turns[i], sc)
        } else {
            best_turn_from(s, head, target, turns, i + 1, best_d, best_score)
        }
    }
}

/// The Hard tier: with no food on the grid it keeps its heading, otherwise
/// it takes the best-scoring non-reversing heading.
pub open spec fn hard_choice(s: GameState, head: Point, current: Direction) -> Direction {
    if s.food@.len() == 0 {
        current
    } else {
        best_turn_from(
            s,
            head,
            s.food@[0],
            valid_turns_spec(current),
            0,
            current,
            DISQUALIFIED_SCORE as int,
        )
    }
}

/// First safe heading among `turns` from index `i` on.
pub open spec fn first_safe_from(
    s: GameState,
    head: Point,
    turns: Seq<Direction>,
    i: int,
) -> Option<Direction>
    decreases turns.len() - i,
{
    if i < 0 || i >= turns.len() {
        None
    } else if safe_spec(s, head, turns[i]) {
        Some(turns[i])
    } else {
        first_safe_from(s, head, turns, i + 1)
    }
}

/// The Medium tier: head for the first food item when that heading is
/// safe, otherwise the first safe non-reversing alternative, otherwise
/// keep going.
pub open spec fn medium_choice(s: GameState, head: Point, current: Direction) -> Direction {
    if s.food@.len() == 0 {
        current
    } else {
        let target = s.food@[0];
        let desired = dir_toward(head.x as int, head.y as int, target.x as int, target.y as int);
        if safe_spec(s, head, desired) {
            desired
        } else {
            match first_safe_from(s, head, valid_turns_spec(current), 0) {
                Some(d) => d,
                None => current,
            }
        }
    }
}

/// What the Easy tier may return: either the heading towards the first
/// food item (the three-in-ten food-seeking case) or any non-reversing
/// heading (the random case). Which of these comes back depends on the
/// draw, so only this disjunction is promised.
pub open spec fn easy_choice_ok(s: GameState, head: Point, current: Direction, d: Direction) -> bool {
    (s.food@.len() > 0 && d == dir_toward(
        head.x as int,
        head.y as int,
        s.food@[0].x as int,
        s.food@[0].y as int,
    )) || valid_turns_spec(current).contains(d)
}

impl GameState {
    /// The up-to-three non-reversing headings, in the fixed order.
    pub fn valid_turns(&self, current: Direction) -> (r: Vec<Direction>)
        ensures
            r@ == valid_turns_spec(current),
            r@.len() == 3,
    {
        let mut v: Vec<Direction> = Vec::new();
        match current {
            Direction::Up => {
                v.push(Direction::Up);
                v.push(Direction::Left);
                v.push(Direction::Right);
            },
            Direction::Down => {
                v.push(Direction::Down);
                v.push(Direction::Left);
                v.push(Direction::Right);
            },
            Direction::Left => {
                v.push(Direction::Left);
                v.push(Direction::Up);
                v.push(Direction::Down);
            },
            Direction::Right => {
                v.push(Direction::Right);
                v.push(Direction::Up);
                v.push(Direction::Down);
            },
        }
        proof {
            assert(v@ =~= valid_turns_spec(current));
        }
        v
    }

    /// The heading that closes the larger axis gap towards `to`.
    pub fn direction_toward(&self, from: &Point, to: &Point, _current: Direction) -> (r: Direction)
        ensures
            r == dir_toward(from.x as int, from.y as int, to.x as int, to.y as int),
    {
        let dx: i64 = to.x as i64 - from.x as i64;
        let dy: i64 = to.y as i64 - from.y as i64;
        let adx: i64 = if dx < 0 { -dx } else { dx };
        let ady: i64 = if dy < 0 { -dy } else { dy };
        if adx > ady {
            if dx > 0 {
                Direction::Right
            } else {
                Direction::Left
            }
        } else if dy > 0 {
            Direction::Down
        } else {
            Direction::Up
        }
    }

    /// Whether one step from `head` in `dir` survives the next tick.
    pub fn is_direction_safe(&self, head: &Point, dir: Direction) -> (r: bool)
        ensures
            r == safe_spec(*self, *head, dir),
    {
        let nx: i64 = match dir {
            Direction::Up => head.x as i64,
            Direction::Down => head.x as i64,
            Direction::Left => head.x as i64 - 1,
            Direction::Right => head.x as i64 + 1,
        };
        let ny: i64 = match dir {
            Direction::Up => head.y as i64 - 1,
            Direction::Down => head.y as i64 + 1,
            Direction::Left => head.y as i64,
            Direction::Right => head.y as i64,
        };
        if !(0 < nx && nx < self.grid_width as i64 - 1 && 0 < ny && ny < self.grid_height as i64
            - 1) {
            return false;
        }
        let np = Point { x: nx as i32, y: ny as i32 };
        !any_snake_at(&self.players, np)
    }
}

/// What `bot_decide_direction` promises about one player: nothing for a
/// human or an unconfigured bot, the exact deterministic choice for the
/// Medium and Hard tiers, and the documented disjunction for Easy.
pub open spec fn bot_decision_ok(s: GameState, p: crate::room::Player, r: Option<Direction>) -> bool {
    if !p.is_bot || p.difficulty is None {
        r is None
    } else {
        let head = p.snake.body@[0];
        let cur = p.snake.direction;
        match p.difficulty.unwrap() {
            BotDifficulty::Easy => r is Some && easy_choice_ok(s, head, cur, r.unwrap()),
            BotDifficulty::Medium => r == Some(medium_choice(s, head, cur)),
            BotDifficulty::Hard => r == Some(hard_choice(s, head, cur)),
        }
    }
}

/// Expansion step of the executable flood fill, mirroring `flood_expand`.
fn flood_expand_exec(s: &GameState, queue: Vec<Point>, visited: Vec<Point>, pos: Point, k: u32) -> (r: (
    Vec<Point>,
    Vec<Point>,
))
    requires
        k <= 4,
    ensures
        r.0@ == flood_expand(*s, queue@, visited@, pos, k as int).0,
        r.1@ == flood_expand(*s, queue@, visited@, pos, k as int).1,
    decreases 4 - k,
{
    if k >= 4 {
        (queue, visited)
    } else {
        let d = if k == 0 {
            Direction::Up
        } else if k == 1 {
            Direction::Down
        } else if k == 2 {
            Direction::Left
        } else {
            Direction::Right
        };
        let nx: i64 = match d {
            Direction::Up => pos.x as i64,
            Direction::Down => pos.x as i64,
            Direction::Left => pos.x as i64 - 1,
            Direction::Right => pos.x as i64 + 1,
        };
        let ny: i64 = match d {
            Direction::Up => pos.y as i64 - 1,
            Direction::Down => pos.y as i64 + 1,
            Direction::Left => pos.y as i64,
            Direction::Right => pos.y as i64,
        };
        let inside = 0 < nx && nx < s.grid_width as i64 - 1 && 0 < ny && ny < s.grid_height as i64
            - 1;
        if inside {
            let np = Point { x: nx as i32, y: ny as i32 };
            if !crate::room::points_contain(&visited, np) && !any_snake_at(&s.players, np) {
                let mut queue = queue;
                let mut visited = visited;
                queue.push(np);
                visited.push(np);
                return flood_expand_exec(s, queue, visited, pos, k + 1);
            }
        }
        flood_expand_exec(s, queue, visited, pos, k + 1)
    }
}

/// Visit step of the executable flood fill, mirroring `flood_count`.
fn flood_count_exec(s: &GameState, queue: Vec<Point>, qi: usize, visited: Vec<Point>, count: u32) -> (r:
    u32)
    requires
        count <= FLOOD_LIMIT,
    ensures
        r as int == flood_count(*s, queue@, qi as int, visited@, count as int),
    decreases FLOOD_LIMIT - count,
{
    if qi >= queue.len() {
        count
    } else {
        let c1 = count + 1;
        if c1 >= FLOOD_LIMIT {
            c1
        } else {
            let pos = queue[qi];
            let expanded = flood_expand_exec(s, queue, visited, pos, 0);
            flood_count_exec(s, expanded.0, qi + 1, expanded.1, c1)
        }
    }
}

impl GameState {
    /// Bounded flood-fill estimate of the open space around `start`.
    pub fn count_reachable_spaces(&self, start: &Point, _player_id: &String) -> (r: u32)
        ensures
            r as int == reachable_estimate(*self, *start),
    {
        let mut queue: Vec<Point> = Vec::new();
        queue.push(*start);
        let mut visited: Vec<Point> = Vec::new();
        visited.push(*start);
        proof {
            assert(queue@ =~= seq![*start]);
            assert(visited@ =~= seq![*start]);
        }
        flood_count_exec(self, queue, 0, visited, 0)
    }

    /// The Hard tier's score of one candidate heading, in tenths.
    pub fn evaluate_direction(&self, player_id: &String, head: &Point, dir: Direction, target: &Point) -> (r:
        i64)
        requires
            self.wf(),
        ensures
            r as int == eval_direction(*self, *head, dir, *target),
    {
        let nx: i64 = match dir {
            Direction::Up => head.x as i64,
            Direction::Down => head.x as i64,
            Direction::Left => head.x as i64 - 1,
            Direction::Right => head.x as i64 + 1,
        };
        let ny: i64 = match dir {
            Direction::Up => head.y as i64 - 1,
            Direction::Down => head.y as i64 + 1,
            Direction::Left => head.y as i64,
            Direction::Right => head.y as i64,
        };
        if !(0 < nx && nx < self.grid_width as i64 - 1 && 0 < ny && ny < self.grid_height as i64
            - 1) {
            return DISQUALIFIED_SCORE;
        }
        let np = Point { x: nx as i32, y: ny as i32 };
        if any_snake_at(&self.players, np) {
            return DISQUALIFIED_SCORE;
        }
        let ddx: i64 = if target.x as i64 > nx {
            target.x as i64 - nx
        } else {
            nx - target.x as i64
        };
        let ddy: i64 = if target.y as i64 > ny {
            target.y as i64 - ny
        } else {
            ny - target.y as i64
        };
        let dist: i64 = ddx + ddy;
        proof {
            assert(0 <= ddx < 0x1_0000_0000int);
            assert(0 <= ddy < 0x1_0000_0000int);
        }
        let reach = self.count_reachable_spaces(&np, player_id);
        let mut bonus: i64 = 0;
        let mut i: usize = 0;
        while i < self.power_ups.len()
            invariant
                0 <= i <= self.power_ups@.len(),
                self.power_ups@.len() <= crate::room::POWERUP_CAP,
                0 < nx < 256,
                0 < ny < 256,
                0 <= bonus <= 20 * i,
                bonus + powerup_bonus_from(*self, nx as int, ny as int, i as int)
                    == powerup_bonus_from(*self, nx as int, ny as int, 0),
            decreases self.power_ups@.len() - i,
        {
            let pu = &self.power_ups[i];
            let px: i64 = if pu.position.x as i64 > nx {
                pu.position.x as i64 - nx
            } else {
                nx - pu.position.x as i64
            };
            let py: i64 = if pu.position.y as i64 > ny {
                pu.position.y as i64 - ny
            } else {
                ny - pu.position.y as i64
            };
            if px + py < 5 {
                bonus = bonus + 20;
            }
            i = i + 1;
        }
        proof {
            assert(0 <= dist < 0x2_0000_0000int);
            assert(0 <= bonus <= 20 * crate::room::POWERUP_CAP);
        }
        -10 * dist + reach as i64 + bonus
    }

    /// The Easy tier: three calls in ten chase the first food item, the
    /// rest pick a non-reversing heading at random.
    pub fn bot_easy_decision(&self, head: &Point, current: Direction) -> (r: Option<Direction>)
        ensures
            r is Some,
            easy_choice_ok(*self, *head, current, r.unwrap()),
    {
        let roll = rand_below(10);
        if roll < 3 && self.food.len() > 0 {
            let target = self.food[0];
            return Some(self.direction_toward(head, &target, current));
        }
        let options = self.valid_turns(current);
        let idx = rand_below(3) as usize;
        let d = options[idx];
        proof {
            assert(valid_turns_spec(current)[idx as int] == d);
        }
        Some(d)
    }

    /// The Medium tier, deterministically: chase food, fall back to the
    /// first safe turn, else keep the current heading.
    pub fn bot_medium_decision(&self, head: &Point, current: Direction) -> (r: Option<Direction>)
        ensures
            r == Some(medium_choice(*self, *head, current)),
    {
        if self.food.len() == 0 {
            return Some(current);
        }
        let target = self.food[0];
        let desired = self.direction_toward(head, &target, current);
        if self.is_direction_safe(head, desired) {
            return Some(desired);
        }
        let alternatives = self.valid_turns(current);
        let mut i: usize = 0;
        while i < alternatives.len()
            invariant
                0 <= i <= alternatives@.len(),
                self.food@.len() > 0,
                target == self.food@[0],
                desired == dir_toward(
                    head.x as int,
                    head.y as int,
                    target.x as int,
                    target.y as int,
                ),
                !safe_spec(*self, *head, desired),
                alternatives@ == valid_turns_spec(current),
                first_safe_from(*self, *head, alternatives@, i as int) == first_safe_from(
                    *self,
                    *head,
                    alternatives@,
                    0,
                ),
            decreases alternatives@.len() - i,
        {
            let d = alternatives[i];
            if self.is_direction_safe(head, d) {
                proof {
                    assert(first_safe_from(*self, *head, alternatives@, i as int) == Some(d));
                }
                return Some(d);
            }
            i = i + 1;
        }
        Some(current)
    }

    /// The Hard tier, deterministically: the strictly best-scoring
    /// non-reversing heading, earlier candidates winning ties.
    pub fn bot_hard_decision(&self, player_id: &String, head: &Point, current: Direction) -> (r:
        Option<Direction>)
        requires
            self.wf(),
        ensures
            r == Some(hard_choice(*self, *head, current)),
    {
        if self.food.len() == 0 {
            return Some(current);
        }
        let target = self.food[0];
        let turns = self.valid_turns(current);
        let mut best_dir = current;
        let mut best_score: i64 = DISQUALIFIED_SCORE;
        let mut i: usize = 0;
        while i < turns.len()
            invariant
                self.wf(),
                0 <= i <= turns@.len(),
                self.food@.len() > 0,
                target == self.food@[0],
                turns@ == valid_turns_spec(current),
                best_turn_from(
                    *self,
                    *head,
                    target,
                    turns@,
                    i as int,
                    best_dir,
                    best_score as int,
                ) == hard_choice(*self, *head, current),
            decreases turns@.len() - i,
        {
            let d = turns[i];
            let score = self.evaluate_direction(player_id, head, d, &target);
            if score > best_score {
                best_score = score;
                best_dir = d;
            }
            i = i + 1;
        }
        Some(best_dir)
    }

    /// One bot's movement decision from the current room state, dispatched
    /// on its difficulty tier. Humans and unknown ids get no decision.
    pub fn bot_decide_direction(&self, player_id: &String) -> (r: Option<Direction>)
        requires
            self.wf(),
        ensures
            (forall|i: int|
                0 <= i < self.players@.len() ==> (#[trigger] self.players@[i]).id@
                    != player_id@) ==> r is None,
            forall|i: int|
                0 <= i < self.players@.len() && (#[trigger] self.players@[i]).id@ == player_id@
                    ==> bot_decision_ok(*self, self.players@[i], r),
    {
        let idx = match self.find_player(player_id) {
            Some(i) => i,
            None => {
                return None;
            },
        };
        let player = &self.players[idx];
        if !player.is_bot {
            return None;
        }
        let difficulty = match player.difficulty {
            Some(d) => d,
            None => {
                return None;
            },
        };
        let current_direction = player.snake.direction;
        let head = *player.snake.head();
        match difficulty {
            BotDifficulty::Easy => self.bot_easy_decision(&head, current_direction),
            BotDifficulty::Medium => self.bot_medium_decision(&head, current_direction),
            BotDifficulty::Hard => self.bot_hard_decision(player_id, &head, current_direction),
        }
    }
}

} // verus!
