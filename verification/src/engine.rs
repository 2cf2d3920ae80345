//! The tick engine and the room's message protocol.
//!
//! A room is a single logical thread of control: every mutation of its
//! state happens inside one of the handlers below or inside `tick`, never
//! concurrently. The handlers return the messages to deliver — broadcast
//! or directed — and the caller performs the actual sends; nothing here
//! blocks on a consumer.

use vstd::prelude::*;

use crate::geometry::Direction;
use crate::geometry::Point;
use crate::geometry::in_bounds;
use crate::geometry::wrap_spec;
use crate::registry::RoomSettings;
use crate::room::ActivePowerUp;
use crate::room::GamePhase;
use crate::room::GameState;
use crate::room::Player;
use crate::room::PowerUp;
use crate::room::PowerUpType;
use crate::room::BotDifficulty;
use crate::room::has_phantom;
use crate::room::player_wf;
use crate::room::protected;
use crate::snake::GROWTH_SCORE;

verus! {

/// A decoded client intent, exactly as the session hands it over.
pub enum ClientMessage {
    Join { name: String, user_id: Option<String>, access_token: Option<String> },
    Ready,
    Direction { direction: Direction },
    StartGame,
    Restart,
    PlayAgain,
}

/// An event the room emits towards clients.
pub enum ServerMessage {
    Welcome { player_id: String },
    GameState(GameState),
    PlayerJoined { player_id: String, name: String },
    PlayerLeft { player_id: String },
    Error { message: String },
    GameStarted,
    GameOver { winner: Option<String> },
}

/// Where an emitted event goes: to every attached session or to one.
pub enum Outbound {
    Broadcast(ServerMessage),
    Direct(String, ServerMessage),
}

/// A fire-and-forget score record for one linked account, handed to the
/// caller when a round ends; delivering it is not the room's business.
pub struct ScoreSubmission {
    pub user_id: String,
    pub access_token: String,
    pub score: u32,
}

/// Equality of optional strings up to string contents.
pub open spec fn same_opt_string(a: Option<String>, b: Option<String>) -> bool {
    match (a, b) {
        (Some(x), Some(y)) => x@ == y@,
        (None, None) => true,
        _ => false,
    }
}

/// Equality of snakes up to the contents of their buffers.
pub open spec fn same_snake(a: crate::snake::Snake, b: crate::snake::Snake) -> bool {
    &&& a.body@ == b.body@
    &&& a.direction == b.direction
    &&& a.next_direction == b.next_direction
    &&& a.alive == b.alive
    &&& a.score == b.score
    &&& a.color@ == b.color@
}

/// Equality of players up to the contents of their buffers.
pub open spec fn same_player(a: Player, b: Player) -> bool {
    &&& a.id@ == b.id@
    &&& same_opt_string(a.user_id, b.user_id)
    &&& same_opt_string(a.access_token, b.access_token)
    &&& a.name@ == b.name@
    &&& same_snake(a.snake, b.snake)
    &&& a.ready == b.ready
    &&& a.active_power == b.active_power
    &&& a.is_bot == b.is_bot
    &&& a.difficulty == b.difficulty
}

/// Equality of whole room states up to the contents of their buffers; what
/// a broadcast snapshot promises about the state it was taken from.
pub open spec fn same_state(a: GameState, b: GameState) -> bool {
    &&& a.phase == b.phase
    &&& a.players@.len() == b.players@.len()
    &&& forall|i: int|
        0 <= i < a.players@.len() ==> same_player(#[trigger] a.players@[i], b.players@[i])
    &&& a.food@ == b.food@
    &&& a.grid_width == b.grid_width
    &&& a.grid_height == b.grid_height
    &&& same_opt_string(a.winner, b.winner)
    &&& a.countdown == b.countdown
    &&& a.countdown_ticks == b.countdown_ticks
    &&& a.power_ups@ == b.power_ups@
}

/// All fields of a player except its snake, compared as values.
pub open spec fn same_identity(a: Player, b: Player) -> bool {
    &&& a.id == b.id
    &&& a.user_id == b.user_id
    &&& a.access_token == b.access_token
    &&& a.name == b.name
    &&& a.ready == b.ready
    &&& a.is_bot == b.is_bot
    &&& a.difficulty == b.difficulty
}

/// All fields of a snake except the alive flag, compared as values.
pub open spec fn same_snake_but_alive(a: crate::snake::Snake, b: crate::snake::Snake) -> bool {
    &&& a.body == b.body
    &&& a.direction == b.direction
    &&& a.next_direction == b.next_direction
    &&& a.score == b.score
    &&& a.color == b.color
}

fn copy_points(v: &Vec<Point>) -> (r: Vec<Point>)
    ensures
        r@ == v@,
{
    let mut r: Vec<Point> = Vec::new();
    let mut i: usize = 0;
    while i < v.len()
        invariant
            0 <= i <= v@.len(),
            r@ == v@.subrange(0, i as int),
        decreases v@.len() - i,
    {
        r.push(v[i]);
        proof {
            assert(r@ =~= v@.subrange(0, i + 1));
        }
        i = i + 1;
    }
    proof {
        assert(r@ =~= v@);
    }
    r
}

fn copy_power_ups(v: &Vec<PowerUp>) -> (r: Vec<PowerUp>)
    ensures
        r@ == v@,
{
    let mut r: Vec<PowerUp> = Vec::new();
    let mut i: usize = 0;
    while i < v.len()
        invariant
            0 <= i <= v@.len(),
            r@ == v@.subrange(0, i as int),
        decreases v@.len() - i,
    {
        r.push(v[i]);
        proof {
            assert(r@ =~= v@.subrange(0, i + 1));
        }
        i = i + 1;
    }
    proof {
        assert(r@ =~= v@);
    }
    r
}

fn clone_opt_string(o: &Option<String>) -> (r: Option<String>)
    ensures
        same_opt_string(*o, r),
{
    match o {
        Some(s) => Some(s.clone()),
        None => None,
    }
}

fn clone_snake(s: &crate::snake::Snake) -> (r: crate::snake::Snake)
    ensures
        same_snake(*s, r),
{
    crate::snake::Snake {
        body: copy_points(&s.body),
        direction: s.direction,
        next_direction: s.next_direction,
        alive: s.alive,
        score: s.score,
        color: s.color.clone(),
    }
}

fn clone_player(p: &Player) -> (r: Player)
    ensures
        same_player(*p, r),
{
    Player {
        id: p.id.clone(),
        user_id: clone_opt_string(&p.user_id),
        access_token: clone_opt_string(&p.access_token),
        name: p.name.clone(),
        snake: clone_snake(&p.snake),
        ready: p.ready,
        active_power: p.active_power,
        is_bot: p.is_bot,
        difficulty: p.difficulty,
    }
}

impl GameState {
    /// A faithful copy of the whole state, taken whenever the room
    /// broadcasts; the events carry the state exactly as it was at the
    /// moment of emission.
    pub fn snapshot(&self) -> (r: GameState)
        ensures
            same_state(*self, r),
    {
        let mut players: Vec<Player> = Vec::new();
        let mut i: usize = 0;
        while i < self.players.len()
            invariant
                0 <= i <= self.players@.len(),
                players@.len() == i,
                forall|j: int|
                    0 <= j < i ==> same_player(#[trigger] self.players@[j], players@[j]),
            decreases self.players@.len() - i,
        {
            players.push(clone_player(&self.players[i]));
            i = i + 1;
        }
        GameState {
            phase: self.phase,
            players,
            food: copy_points(&self.food),
            grid_width: self.grid_width,
            grid_height: self.grid_height,
            winner: clone_opt_string(&self.winner),
            countdown: self.countdown,
            countdown_ticks: self.countdown_ticks,
            power_ups: copy_power_ups(&self.power_ups),
        }
    }
}

/// Player soundness in the instant between movement and the wall check:
/// the tail still lies on the grid, but the freshly stepped head may sit
/// one cell beyond it.
pub open spec fn moved_player_wf(p: Player, w: i32, h: i32) -> bool {
    &&& p.snake.wf()
    &&& p.snake.alive ==> {
        &&& forall|k: int|
            1 <= k < p.snake.body@.len() ==> in_bounds(#[trigger] p.snake.body@[k], w, h)
        &&& -1 <= p.snake.body@[0].x <= w
        &&& -1 <= p.snake.body@[0].y <= h
    }
    &&& (match p.active_power {
        Some(ap) => ap.ticks_remaining >= 1,
        None => true,
    })
    &&& p.is_bot ==> p.difficulty is Some
}

/// The room invariant in the instant between movement and the wall check.
pub open spec fn mid_wf(s: GameState) -> bool {
    &&& s.base_wf()
    &&& forall|i: int|
        0 <= i < s.players@.len() ==> moved_player_wf(#[trigger] s.players@[i], s.grid_width, s.grid_height)
}

/// What one movement step does to one player: a living snake commits its
/// pending heading and translates one cell; a dead one lies still.
pub open spec fn move_outcome(a: Player, b: Player) -> bool {
    &&& same_identity(a, b)
    &&& b.active_power == a.active_power
    &&& if a.snake.alive {
        &&& b.snake.body@ == crate::snake::moved_body(a.snake.body@, a.snake.next_direction)
        &&& b.snake.direction == a.snake.next_direction
        &&& b.snake.next_direction == a.snake.next_direction
        &&& b.snake.alive
        &&& b.snake.score == a.snake.score
        &&& b.snake.color == a.snake.color
    } else {
        b.snake == a.snake
    }
}

/// What the wall check does to one player: a head off the grid kills its
/// owner, unless the owner holds the phase-through effect, in which case
/// the head wraps to the opposite edge and the body length is unchanged.
/// Shield gives no protection here.
pub open spec fn wall_outcome(a: Player, b: Player, w: i32, h: i32) -> bool {
    &&& same_identity(a, b)
    &&& b.active_power == a.active_power
    &&& if a.snake.alive && !in_bounds(a.snake.body@[0], w, h) {
        if has_phantom(a) {
            &&& b.snake.alive
            &&& b.snake.body@ == a.snake.body@.update(0, wrap_spec(a.snake.body@[0], w, h))
            &&& b.snake.direction == a.snake.direction
            &&& b.snake.next_direction == a.snake.next_direction
            &&& b.snake.score == a.snake.score
            &&& b.snake.color == a.snake.color
        } else {
            &&& !b.snake.alive
            &&& same_snake_but_alive(a.snake, b.snake)
        }
    } else {
        b == a
    }
}

/// Whether a snake's head lies on another segment of its own body.
pub open spec fn self_hit(s: crate::snake::Snake) -> bool {
    exists|k: int| 1 <= k < s.body@.len() && #[trigger] s.body@[k] == s.body@[0]
}

/// What the self-collision check does to one player: an unprotected
/// living snake biting its own body dies; Shield and the phase-through
/// effect both protect.
pub open spec fn self_outcome(a: Player, b: Player) -> bool {
    &&& same_identity(a, b)
    &&& b.active_power == a.active_power
    &&& if a.snake.alive && !protected(a) && self_hit(a.snake) {
        &&& !b.snake.alive
        &&& same_snake_but_alive(a.snake, b.snake)
    } else {
        b == a
    }
}

/// Whether player `i`'s head lies on any cell of any other player's body,
/// that player's head included and dead bodies included. Only bodies and
/// heads enter this predicate, so the rule is independent of the order in
/// which players are examined: simultaneous head-on collisions kill both.
pub open spec fn cross_hit(players: Seq<Player>, i: int) -> bool {
    exists|j: int|
        0 <= j < players.len() && j != i && players[j].snake.body@.contains(
            players[i].snake.body@[0],
        )
}

/// What the cross-collision check does to player `i`: an unprotected
/// living snake whose head lies in someone else's body dies. Protection
/// only saves its holder; others still collide into a protected body.
pub open spec fn cross_outcome(pre: Seq<Player>, i: int, b: Player) -> bool {
    &&& same_identity(pre[i], b)
    &&& b.active_power == pre[i].active_power
    &&& if pre[i].snake.alive && !protected(pre[i]) && cross_hit(pre, i) {
        &&& !b.snake.alive
        &&& same_snake_but_alive(pre[i].snake, b.snake)
    } else {
        b == pre[i]
    }
}

/// What the per-tick countdown does to one player's timed effect: one
/// tick comes off; at zero the effect is removed and normal vulnerability
/// returns on the next tick.
pub open spec fn decay_outcome(a: Player, b: Player) -> bool {
    &&& same_identity(a, b)
    &&& b.snake == a.snake
    &&& b.active_power == (match a.active_power {
        Some(ap) => if ap.ticks_remaining <= 1 {
            None::<ActivePowerUp>
        } else {
            Some(ActivePowerUp {
                power_type: ap.power_type,
                ticks_remaining: (ap.ticks_remaining - 1) as u32,
            })
        },
        None => None::<ActivePowerUp>,
    })
}

/// Whether `p` holds Shield or the phase-through effect, executably.
fn is_protected(p: &Player) -> (r: bool)
    ensures
        r == protected(*p),
{
    match p.active_power {
        Some(ap) => ap.power_type == PowerUpType::Shield || ap.power_type == PowerUpType::Phantom,
        None => false,
    }
}

fn is_phantom(p: &Player) -> (r: bool)
    ensures
        r == has_phantom(*p),
{
    match p.active_power {
        Some(ap) => ap.power_type == PowerUpType::Phantom,
        None => false,
    }
}

/// Whether the snake's head matches any other segment of its own body.
fn snake_self_hit(s: &crate::snake::Snake) -> (r: bool)
    requires
        s.body@.len() >= 1,
    ensures
        r == self_hit(*s),
{
    let head = s.body[0];
    let mut k: usize = 1;
    while k < s.body.len()
        invariant
            1 <= k <= s.body@.len(),
            head == s.body@[0],
            forall|j: int| 1 <= j < k ==> s.body@[j] != head,
        decreases s.body@.len() - k,
    {
        if s.body[k].x == head.x && s.body[k].y == head.y {
            proof {
                assert(s.body@[k as int] == head);
            }
            return true;
        }
        k = k + 1;
    }
    false
}

/// Whether any *other* player's body covers `pos`.
fn other_snake_at(players: &Vec<Player>, me: usize, pos: Point) -> (r: bool)
    requires
        me < players@.len(),
        players@[me as int].snake.body@.len() >= 1,
        pos == players@[me as int].snake.body@[0],
    ensures
        r == cross_hit(players@, me as int),
{
    let mut j: usize = 0;
    while j < players.len()
        invariant
            0 <= j <= players@.len(),
            me < players@.len(),
            pos == players@[me as int].snake.body@[0],
            forall|q: int|
                0 <= q < j && q != me ==> !(#[trigger] players@[q]).snake.body@.contains(pos),
        decreases players@.len() - j,
    {
        if j != me {
            if crate::room::points_contain(&players[j].snake.body, pos) {
                return true;
            }
        }
        j = j + 1;
    }
    false
}

impl GameState {
    /// Movement phase: every living snake commits its pending heading and
    /// moves one cell; every other segment takes its predecessor's place.
    pub fn move_snakes(&mut self)
        requires
            old(self).wf(),
        ensures
            *final(self) == (GameState { players: final(self).players, ..*old(self) }),
            final(self).players@.len() == old(self).players@.len(),
            forall|i: int|
                0 <= i < old(self).players@.len() ==> move_outcome(
                    #[trigger] old(self).players@[i],
                    final(self).players@[i],
                ),
            mid_wf(*final(self)),
    {
        let ghost pre = *self;
        let n = self.players.len();
        let mut i: usize = 0;
        while i < n
            invariant
                pre.wf(),
                n == pre.players@.len(),
                0 <= i <= n,
                *self == (GameState { players: self.players, ..pre }),
                self.players@.len() == n,
                forall|j: int| i <= j < n ==> self.players@[j] == pre.players@[j],
                forall|j: int|
                    0 <= j < i ==> move_outcome(#[trigger] pre.players@[j], self.players@[j]),
                forall|j: int|
                    0 <= j < i ==> moved_player_wf(
                        #[trigger] self.players@[j],
                        pre.grid_width,
                        pre.grid_height,
                    ),
            decreases n - i,
        {
            proof {
                assert(player_wf(pre.players@[i as int], pre.grid_width, pre.grid_height));
            }
            if self.players[i].snake.alive {
                self.players[i].snake.move_forward();
            }
            i = i + 1;
        }
        proof {
            assert forall|a: int, b: int|
                0 <= a < b < self.players@.len() implies self.players@[a].id@
                != self.players@[b].id@ by {
                assert(move_outcome(pre.players@[a], self.players@[a]));
                assert(move_outcome(pre.players@[b], self.players@[b]));
            }
        }
    }

    /// Wall phase: heads that left the grid kill their owners, except that
    /// the phase-through effect wraps the head to the opposite edge.
    pub fn wall_check(&mut self)
        requires
            mid_wf(*old(self)),
        ensures
            *final(self) == (GameState { players: final(self).players, ..*old(self) }),
            final(self).players@.len() == old(self).players@.len(),
            forall|i: int|
                0 <= i < old(self).players@.len() ==> wall_outcome(
                    #[trigger] old(self).players@[i],
                    final(self).players@[i],
                    old(self).grid_width,
                    old(self).grid_height,
                ),
            final(self).wf(),
    {
        let ghost pre = *self;
        let w = self.grid_width;
        let h = self.grid_height;
        let n = self.players.len();
        let mut i: usize = 0;
        while i < n
            invariant
                mid_wf(pre),
                w == pre.grid_width,
                h == pre.grid_height,
                n == pre.players@.len(),
                0 <= i <= n,
                *self == (GameState { players: self.players, ..pre }),
                self.players@.len() == n,
                forall|j: int| i <= j < n ==> self.players@[j] == pre.players@[j],
                forall|j: int|
                    0 <= j < i ==> wall_outcome(#[trigger] pre.players@[j], self.players@[j], w, h),
                forall|j: int|
                    0 <= j < i ==> player_wf(#[trigger] self.players@[j], w, h),
            decreases n - i,
        {
            proof {
                assert(moved_player_wf(pre.players@[i as int], w, h));
            }
            if self.players[i].snake.alive {
                let head = self.players[i].snake.body[0];
                if head.x < 0 || head.x >= w || head.y < 0 || head.y >= h {
                    if is_phantom(&self.players[i]) {
                        let new_x = if head.x < 0 {
                            w - 1
                        } else if head.x >= w {
                            0
                        } else {
                            head.x
                        };
                        let new_y = if head.y < 0 {
                            h - 1
                        } else if head.y >= h {
                            0
                        } else {
                            head.y
                        };
                        self.players[i].snake.body[0] = Point { x: new_x, y: new_y };
                    } else {
                        self.players[i].snake.alive = false;
                    }
                }
            }
            i = i + 1;
        }
        proof {
            assert forall|a: int, b: int|
                0 <= a < b < self.players@.len() implies self.players@[a].id@
                != self.players@[b].id@ by {
                assert(wall_outcome(pre.players@[a], self.players@[a], w, h));
                assert(wall_outcome(pre.players@[b], self.players@[b], w, h));
            }
        }
    }

    /// Self-collision phase: an unprotected living snake whose head lies
    /// on another segment of its own body dies.
    pub fn self_collisions(&mut self)
        requires
            old(self).wf(),
        ensures
            *final(self) == (GameState { players: final(self).players, ..*old(self) }),
            final(self).players@.len() == old(self).players@.len(),
            forall|i: int|
                0 <= i < old(self).players@.len() ==> self_outcome(
                    #[trigger] old(self).players@[i],
                    final(self).players@[i],
                ),
            final(self).wf(),
    {
        let ghost pre = *self;
        let n = self.players.len();
        let mut i: usize = 0;
        while i < n
            invariant
                pre.wf(),
                n == pre.players@.len(),
                0 <= i <= n,
                *self == (GameState { players: self.players, ..pre }),
                self.players@.len() == n,
                forall|j: int| i <= j < n ==> self.players@[j] == pre.players@[j],
                forall|j: int|
                    0 <= j < i ==> self_outcome(#[trigger] pre.players@[j], self.players@[j]),
                forall|j: int|
                    0 <= j < i ==> player_wf(
                        #[trigger] self.players@[j],
                        pre.grid_width,
                        pre.grid_height,
                    ),
            decreases n - i,
        {
            proof {
                assert(player_wf(pre.players@[i as int], pre.grid_width, pre.grid_height));
            }
            if self.players[i].snake.alive {
                let prot = is_protected(&self.players[i]);
                if !prot {
                    if snake_self_hit(&self.players[i].snake) {
                        self.players[i].snake.alive = false;
                    }
                }
            }
            i = i + 1;
        }
        proof {
            assert forall|a: int, b: int|
                0 <= a < b < self.players@.len() implies self.players@[a].id@
                != self.players@[b].id@ by {
                assert(self_outcome(pre.players@[a], self.players@[a]));
                assert(self_outcome(pre.players@[b], self.players@[b]));
            }
        }
    }

    /// Cross-collision phase: an unprotected living snake whose head lies
    /// in anyone else's body dies. The doomed are judged first against the
    /// untouched bodies and struck down afterwards, so the rule does not
    /// depend on the order in which players are stored.
    pub fn cross_collisions(&mut self)
        requires
            old(self).wf(),
        ensures
            *final(self) == (GameState { players: final(self).players, ..*old(self) }),
            final(self).players@.len() == old(self).players@.len(),
            forall|i: int|
                0 <= i < old(self).players@.len() ==> cross_outcome(
                    old(self).players@,
                    i,
                    #[trigger] final(self).players@[i],
                ),
            final(self).wf(),
    {
        let ghost pre = *self;
        let n = self.players.len();
        let mut doomed: Vec<bool> = Vec::new();
        let mut i: usize = 0;
        while i < n
            invariant
                pre.wf(),
                *self == pre,
                n == pre.players@.len(),
                0 <= i <= n,
                doomed@.len() == i,
                forall|j: int|
                    0 <= j < i ==> doomed@[j] == (pre.players@[j].snake.alive && !protected(
                        pre.players@[j],
                    ) && cross_hit(pre.players@, j)),
            decreases n - i,
        {
            proof {
                assert(player_wf(pre.players@[i as int], pre.grid_width, pre.grid_height));
            }
            let mut kill = false;
            if self.players[i].snake.alive {
                let prot = is_protected(&self.players[i]);
                if !prot {
                    let head = self.players[i].snake.body[0];
                    if other_snake_at(&self.players, i, head) {
                        kill = true;
                    }
                }
            }
            doomed.push(kill);
            i = i + 1;
        }
        let mut i: usize = 0;
        while i < n
            invariant
                pre.wf(),
                n == pre.players@.len(),
                0 <= i <= n,
                doomed@.len() == n,
                forall|j: int|
                    0 <= j < n ==> doomed@[j] == (pre.players@[j].snake.alive && !protected(
                        pre.players@[j],
                    ) && cross_hit(pre.players@, j)),
                *self == (GameState { players: self.players, ..pre }),
                self.players@.len() == n,
                forall|j: int| i <= j < n ==> self.players@[j] == pre.players@[j],
                forall|j: int|
                    0 <= j < i ==> cross_outcome(pre.players@, j, #[trigger] self.players@[j]),
                forall|j: int|
                    0 <= j < i ==> player_wf(
                        #[trigger] self.players@[j],
                        pre.grid_width,
                        pre.grid_height,
                    ),
            decreases n - i,
        {
            proof {
                assert(player_wf(pre.players@[i as int], pre.grid_width, pre.grid_height));
            }
            if doomed[i] {
                self.players[i].snake.alive = false;
            }
            i = i + 1;
        }
    }

    /// Effect countdown phase: every timed effect loses one tick; at zero
    /// it is removed.
    pub fn decay_effects(&mut self)
        requires
            old(self).wf(),
        ensures
            *final(self) == (GameState { players: final(self).players, ..*old(self) }),
            final(self).players@.len() == old(self).players@.len(),
            forall|i: int|
                0 <= i < old(self).players@.len() ==> decay_outcome(
                    #[trigger] old(self).players@[i],
                    final(self).players@[i],
                ),
            final(self).wf(),
    {
        let ghost pre = *self;
        let n = self.players.len();
        let mut i: usize = 0;
        while i < n
            invariant
                pre.wf(),
                n == pre.players@.len(),
                0 <= i <= n,
                *self == (GameState { players: self.players, ..pre }),
                self.players@.len() == n,
                forall|j: int| i <= j < n ==> self.players@[j] == pre.players@[j],
                forall|j: int|
                    0 <= j < i ==> decay_outcome(#[trigger] pre.players@[j], self.players@[j]),
                forall|j: int|
                    0 <= j < i ==> player_wf(
                        #[trigger] self.players@[j],
                        pre.grid_width,
                        pre.grid_height,
                    ),
            decreases n - i,
        {
            proof {
                assert(player_wf(pre.players@[i as int], pre.grid_width, pre.grid_height));
            }
            match self.players[i].active_power {
                Some(ap) => {
                    if ap.ticks_remaining <= 1 {
                        self.players[i].active_power = None;
                    } else {
                        self.players[i].active_power = Some(
                            ActivePowerUp {
                                power_type: ap.power_type,
                                ticks_remaining: ap.ticks_remaining - 1,
                            },
                        );
                    }
                },
                None => {},
            }
            i = i + 1;
        }
        proof {
            assert forall|a: int, b: int|
                0 <= a < b < self.players@.len() implies self.players@[a].id@
                != self.players@[b].id@ by {
                assert(decay_outcome(pre.players@[a], self.players@[a]));
                assert(decay_outcome(pre.players@[b], self.players@[b]));
            }
        }
    }
}

/// Food remaining after the first `upto` players, in storage order, have
/// each eaten the item under their head (if any): earlier players claim
/// contested items first.
pub open spec fn food_progress(players: Seq<Player>, food: Seq<Point>, upto: int) -> Seq<Point>
    decreases upto,
{
    if upto <= 0 {
        food
    } else {
        let prev = food_progress(players, food, upto - 1);
        let p = players[upto - 1];
        if p.snake.alive && prev.contains(p.snake.body@[0]) {
            prev.remove(prev.index_of(p.snake.body@[0]))
        } else {
            prev
        }
    }
}

/// Food only ever leaves the grid by being eaten: the sequential pass can
/// never make the stock grow, so together with one respawn per item eaten
/// the stock never exceeds its fixed size.
pub proof fn lemma_food_progress_len(players: Seq<Player>, food: Seq<Point>, upto: int)
    ensures
        food_progress(players, food, upto).len() <= food.len(),
    decreases upto,
{
    if upto > 0 {
        lemma_food_progress_len(players, food, upto - 1);
    }
}

/// Whether player `i` eats this tick, under that sequential processing.
pub open spec fn eats(players: Seq<Player>, food: Seq<Point>, i: int) -> bool {
    players[i].snake.alive && food_progress(players, food, i).contains(players[i].snake.body@[0])
}

/// What eating does to one player: the snake grows once (the duplicated
/// tail is consumed by the next move) and scores the fixed increment.
pub open spec fn eat_outcome(players: Seq<Player>, food: Seq<Point>, i: int, b: Player) -> bool {
    let a = players[i];
    &&& same_identity(a, b)
    &&& b.active_power == a.active_power
    &&& if eats(players, food, i) {
        &&& b.snake.body@ == a.snake.body@.push(a.snake.body@.last())
        &&& b.snake.score == a.snake.score + GROWTH_SCORE
        &&& b.snake.direction == a.snake.direction
        &&& b.snake.next_direction == a.snake.next_direction
        &&& b.snake.alive == a.snake.alive
        &&& b.snake.color == a.snake.color
    } else {
        b == a
    }
}

/// Whether some living snake's head rests on `pos`.
pub open spec fn alive_head_on(players: Seq<Player>, pos: Point) -> bool {
    exists|i: int|
        0 <= i < players.len() && players[i].snake.alive && players[i].snake.body@[0] == pos
}

/// What collecting does to one player: the power-up under a living head
/// takes effect — Grow adds its segments at once, the timed kinds install
/// a fresh effect, replacing any current one.
pub open spec fn collect_outcome(pus: Seq<PowerUp>, a: Player, b: Player) -> bool {
    &&& same_identity(a, b)
    &&& if a.snake.alive && (exists|k: int|
        0 <= k < pus.len() && (#[trigger] pus[k]).position == a.snake.body@[0]) {
        let pu = pus[choose|k: int| 0 <= k < pus.len() && pus[k].position == a.snake.body@[0]];
        if pu.power_type == PowerUpType::Grow {
            &&& b.active_power == a.active_power
            &&& b.snake.body@ == a.snake.body@ + Seq::new(
                crate::room::GROW_SEGMENTS as nat,
                |q: int| a.snake.body@.last(),
            )
            &&& b.snake.score == a.snake.score + crate::room::GROW_SEGMENTS * GROWTH_SCORE
            &&& b.snake.direction == a.snake.direction
            &&& b.snake.next_direction == a.snake.next_direction
            &&& b.snake.alive == a.snake.alive
            &&& b.snake.color == a.snake.color
        } else {
            &&& b.active_power == Some(
                ActivePowerUp {
                    power_type: pu.power_type,
                    ticks_remaining: crate::room::effect_duration(pu.power_type),
                },
            )
            &&& b.snake == a.snake
        }
    } else {
        b == a
    }
}

/// Living snakes in `players`, counted from index `i` on.
pub open spec fn alive_count_from(players: Seq<Player>, i: int) -> int
    decreases players.len() - i,
{
    if i < 0 || i >= players.len() {
        0
    } else {
        (if players[i].snake.alive {
            1int
        } else {
            0int
        }) + alive_count_from(players, i + 1)
    }
}

/// Index of the first living snake from `i` on, or -1 when none is left.
pub open spec fn first_alive_from(players: Seq<Player>, i: int) -> int
    decreases players.len() - i,
{
    if i < 0 || i >= players.len() {
        -1
    } else if players[i].snake.alive {
        i
    } else {
        first_alive_from(players, i + 1)
    }
}

/// First index in `v` holding `p`, if any.
fn index_of_point(v: &Vec<Point>, p: Point) -> (r: Option<usize>)
    ensures
        match r {
            Some(i) => i < v@.len() && v@[i as int] == p && (forall|j: int|
                0 <= j < i ==> v@[j] != p),
            None => !v@.contains(p),
        },
{
    let mut i: usize = 0;
    while i < v.len()
        invariant
            0 <= i <= v@.len(),
            forall|j: int| 0 <= j < i ==> v@[j] != p,
        decreases v@.len() - i,
    {
        if v[i].x == p.x && v[i].y == p.y {
            proof {
                assert(v@[i as int] == p);
            }
            return Some(i);
        }
        i = i + 1;
    }
    None
}

/// First index in `pus` of a power-up lying at `pos`, if any.
fn index_of_powerup_at(pus: &Vec<PowerUp>, pos: Point) -> (r: Option<usize>)
    ensures
        match r {
            Some(i) => i < pus@.len() && pus@[i as int].position == pos,
            None => forall|k: int| 0 <= k < pus@.len() ==> (#[trigger] pus@[k]).position != pos,
        },
{
    let mut i: usize = 0;
    while i < pus.len()
        invariant
            0 <= i <= pus@.len(),
            forall|k: int| 0 <= k < i ==> (#[trigger] pus@[k]).position != pos,
        decreases pus@.len() - i,
    {
        if pus[i].position.x == pos.x && pus[i].position.y == pos.y {
            proof {
                assert(pus@[i as int].position == pos);
            }
            return Some(i);
        }
        i = i + 1;
    }
    None
}

/// Whether some living snake's head rests on `pos`, executably.
fn any_alive_head_on(players: &Vec<Player>, pos: Point) -> (r: bool)
    requires
        forall|i: int| 0 <= i < players@.len() ==> (#[trigger] players@[i]).snake.body@.len() >= 1,
    ensures
        r == alive_head_on(players@, pos),
{
    let mut i: usize = 0;
    while i < players.len()
        invariant
            0 <= i <= players@.len(),
            forall|j: int| 0 <= j < players@.len() ==> (#[trigger] players@[j]).snake.body@.len() >= 1,
            forall|j: int|
                0 <= j < i ==> !((#[trigger] players@[j]).snake.alive && players@[j].snake.body@[0]
                    == pos),
        decreases players@.len() - i,
    {
        if players[i].snake.alive {
            let head = players[i].snake.body[0];
            if head.x == pos.x && head.y == pos.y {
                proof {
                    assert(players@[i as int].snake.body@[0] == pos);
                }
                return true;
            }
        }
        i = i + 1;
    }
    false
}

impl GameState {
    /// Food phase: in storage order, every living snake whose head rests
    /// on a food item removes it and grows. Returns how many items were
    /// eaten; the caller respawns one replacement per item afterwards.
    pub fn consume_food(&mut self) -> (eaten: usize)
        requires
            old(self).wf(),
            forall|i: int|
                0 <= i < old(self).players@.len() ==> (#[trigger] old(
                    self,
                ).players@[i]).snake.score + GROWTH_SCORE <= u32::MAX,
            forall|i: int|
                0 <= i < old(self).players@.len() ==> (#[trigger] old(
                    self,
                ).players@[i]).snake.body@.len() < usize::MAX,
        ensures
            *final(self) == (GameState {
                players: final(self).players,
                food: final(self).food,
                ..*old(self)
            }),
            final(self).players@.len() == old(self).players@.len(),
            final(self).food@ == food_progress(
                old(self).players@,
                old(self).food@,
                old(self).players@.len() as int,
            ),
            eaten == old(self).food@.len() - final(self).food@.len(),
            forall|i: int|
                0 <= i < old(self).players@.len() ==> eat_outcome(
                    old(self).players@,
                    old(self).food@,
                    i,
                    #[trigger] final(self).players@[i],
                ),
            final(self).wf(),
    {
        let ghost pre = *self;
        let food_len_before = self.food.len();
        let n = self.players.len();
        let mut i: usize = 0;
        while i < n
            invariant
                pre.wf(),
                food_len_before == pre.food@.len(),
                n == pre.players@.len(),
                0 <= i <= n,
                *self == (GameState { players: self.players, food: self.food, ..pre }),
                self.players@.len() == n,
                self.food@ == food_progress(pre.players@, pre.food@, i as int),
                self.food@.len() <= pre.food@.len(),
                forall|a: int, b: int| 0 <= a < b < self.food@.len() ==> self.food@[a] != self.food@[b],
                forall|k: int|
                    0 <= k < self.food@.len() ==> crate::geometry::strictly_inside(
                        (#[trigger] self.food@[k]).x as int,
                        self.food@[k].y as int,
                        pre.grid_width,
                        pre.grid_height,
                    ),
                forall|j: int|
                    0 <= j < n ==> (#[trigger] pre.players@[j]).snake.score + GROWTH_SCORE
                        <= u32::MAX,
                forall|j: int|
                    0 <= j < n ==> (#[trigger] pre.players@[j]).snake.body@.len() < usize::MAX,
                forall|j: int| i <= j < n ==> self.players@[j] == pre.players@[j],
                forall|j: int|
                    0 <= j < i ==> eat_outcome(
                        pre.players@,
                        pre.food@,
                        j,
                        #[trigger] self.players@[j],
                    ),
                forall|j: int|
                    0 <= j < i ==> player_wf(
                        #[trigger] self.players@[j],
                        pre.grid_width,
                        pre.grid_height,
                    ),
            decreases n - i,
        {
            proof {
                assert(player_wf(pre.players@[i as int], pre.grid_width, pre.grid_height));
            }
            if self.players[i].snake.alive {
                let head = self.players[i].snake.body[0];
                match index_of_point(&self.food, head) {
                    Some(idx) => {
                        proof {
                            let prev = food_progress(pre.players@, pre.food@, i as int);
                            let si = prev.index_of(head);
                            assert(prev.contains(head)) by {
                                assert(prev[idx as int] == head);
                            }
                            assert(0 <= si < prev.len() && prev[si] == head);
                            assert(si == idx as int);
                        }
                        self.food.remove(idx);
                        self.players[i].snake.grow();
                    },
                    None => {},
                }
            }
            i = i + 1;
        }
        proof {
            assert forall|a: int, b: int|
                0 <= a < b < self.players@.len() implies self.players@[a].id@
                != self.players@[b].id@ by {
                assert(eat_outcome(pre.players@, pre.food@, a, self.players@[a]));
                assert(eat_outcome(pre.players@, pre.food@, b, self.players@[b]));
            }
        }
        food_len_before - self.food.len()
    }
}

/// The power-ups that survive the collection pass: those from index `i`
/// on with no living head resting on them, in their existing order.
pub open spec fn kept_powerups(players: Seq<Player>, pus: Seq<PowerUp>, i: int) -> Seq<PowerUp>
    decreases pus.len() - i,
{
    if i < 0 || i >= pus.len() {
        Seq::empty()
    } else if !alive_head_on(players, pus[i].position) {
        seq![pus[i]] + kept_powerups(players, pus, i + 1)
    } else {
        kept_powerups(players, pus, i + 1)
    }
}

impl GameState {
    /// Power-up collection phase: every living snake whose head rests on a
    /// power-up consumes it — Grow acts instantly, the timed kinds install
    /// a fresh effect replacing any current one — and every consumed
    /// power-up leaves the grid.
    pub fn collect_powerups(&mut self)
        requires
            old(self).wf(),
            forall|i: int|
                0 <= i < old(self).players@.len() ==> (#[trigger] old(
                    self,
                ).players@[i]).snake.score + crate::room::GROW_SEGMENTS * GROWTH_SCORE <= u32::MAX,
            forall|i: int|
                0 <= i < old(self).players@.len() ==> (#[trigger] old(
                    self,
                ).players@[i]).snake.body@.len() + crate::room::GROW_SEGMENTS < usize::MAX,
        ensures
            *final(self) == (GameState {
                players: final(self).players,
                power_ups: final(self).power_ups,
                ..*old(self)
            }),
            final(self).players@.len() == old(self).players@.len(),
            forall|i: int|
                0 <= i < old(self).players@.len() ==> collect_outcome(
                    old(self).power_ups@,
                    old(self).players@[i],
                    #[trigger] final(self).players@[i],
                ),
            final(self).power_ups@ == kept_powerups(old(self).players@, old(self).power_ups@, 0),
            final(self).wf(),
    {
        let ghost pre = *self;
        let n = self.players.len();

        // Which power-up, if any, each living head is resting on; judged
        // against the untouched grid so the outcome is order-independent.
        let mut matched: Vec<Option<PowerUpType>> = Vec::new();
        let mut i: usize = 0;
        while i < n
            invariant
                pre.wf(),
                *self == pre,
                n == pre.players@.len(),
                0 <= i <= n,
                matched@.len() == i,
                forall|j: int|
                    0 <= j < i ==> #[trigger] matched@[j] == (if pre.players@[j].snake.alive && (
                    exists|k: int|
                        0 <= k < pre.power_ups@.len() && (#[trigger] pre.power_ups@[k]).position
                            == pre.players@[j].snake.body@[0]) {
                        Some(
                            pre.power_ups@[choose|k: int|
                                0 <= k < pre.power_ups@.len() && pre.power_ups@[k].position
                                    == pre.players@[j].snake.body@[0]].power_type,
                        )
                    } else {
                        None::<PowerUpType>
                    }),
            decreases n - i,
        {
            proof {
                assert(player_wf(pre.players@[i as int], pre.grid_width, pre.grid_height));
            }
            let mut m: Option<PowerUpType> = None;
            if self.players[i].snake.alive {
                let head = self.players[i].snake.body[0];
                match index_of_powerup_at(&self.power_ups, head) {
                    Some(idx) => {
                        m = Some(self.power_ups[idx].power_type);
                        proof {
                            let k = choose|k: int|
                                0 <= k < pre.power_ups@.len() && pre.power_ups@[k].position
                                    == head;
                            assert(pre.power_ups@[idx as int].position == head);
                            assert(0 <= k < pre.power_ups@.len() && pre.power_ups@[k].position
                                == head);
                            assert(k == idx as int);
                        }
                    },
                    None => {},
                }
            }
            matched.push(m);
            i = i + 1;
        }

        // Remove every power-up that some living head is resting on.
        let mut kept: Vec<PowerUp> = Vec::new();
        let ghost mut idxs: Seq<int> = Seq::empty();
        let mut i: usize = 0;
        while i < self.power_ups.len()
            invariant
                pre.wf(),
                *self == pre,
                n == pre.players@.len(),
                0 <= i <= pre.power_ups@.len(),
                kept_powerups(pre.players@, pre.power_ups@, 0) == kept@ + kept_powerups(
                    pre.players@,
                    pre.power_ups@,
                    i as int,
                ),
                idxs.len() == kept@.len(),
                kept@.len() <= i,
                forall|a: int|
                    0 <= a < kept@.len() ==> 0 <= #[trigger] idxs[a] < i && kept@[a]
                        == pre.power_ups@[idxs[a]],
                forall|a: int, b: int| 0 <= a < b < kept@.len() ==> idxs[a] < idxs[b],
            decreases pre.power_ups@.len() - i,
        {
            let pu = self.power_ups[i];
            proof {
                assert forall|j: int|
                    0 <= j < pre.players@.len() implies (#[trigger] pre.players@[j]).snake.body@.len()
                    >= 1 by {
                    assert(player_wf(pre.players@[j], pre.grid_width, pre.grid_height));
                }
            }
            if !any_alive_head_on(&self.players, pu.position) {
                kept.push(pu);
                proof {
                    idxs = idxs.push(i as int);
                    assert(kept@ + kept_powerups(pre.players@, pre.power_ups@, i + 1)
                        =~= kept@.drop_last() + (seq![pu] + kept_powerups(
                        pre.players@,
                        pre.power_ups@,
                        i + 1,
                    )));
                }
            }
            i = i + 1;
        }
        self.power_ups = kept;
        proof {
            assert(kept_powerups(pre.players@, pre.power_ups@, pre.power_ups@.len() as int)
                =~= Seq::<PowerUp>::empty());
            assert(self.power_ups@ =~= kept_powerups(pre.players@, pre.power_ups@, 0));
            assert(self.power_ups@.len() <= pre.power_ups@.len());
            assert forall|a: int, b: int|
                0 <= a < b < self.power_ups@.len() implies self.power_ups@[a].position
                != self.power_ups@[b].position && self.power_ups@[a].id
                != self.power_ups@[b].id by {
                assert(self.power_ups@[a] == pre.power_ups@[idxs[a]]);
                assert(self.power_ups@[b] == pre.power_ups@[idxs[b]]);
            }
            assert forall|k: int|
                0 <= k < self.power_ups@.len() implies crate::geometry::strictly_inside(
                (#[trigger] self.power_ups@[k]).position.x as int,
                self.power_ups@[k].position.y as int,
                pre.grid_width,
                pre.grid_height,
            ) by {
                assert(self.power_ups@[k] == pre.power_ups@[idxs[k]]);
            }
        }

        // Apply the matched effects.
        let ghost pus_after = self.power_ups@;
        let mut i: usize = 0;
        while i < n
            invariant
                pre.wf(),
                n == pre.players@.len(),
                0 <= i <= n,
                *self == (GameState { players: self.players, power_ups: self.power_ups, ..pre }),
                self.players@.len() == n,
                self.power_ups@ == pus_after,
                pus_after == kept_powerups(pre.players@, pre.power_ups@, 0),
                pus_after.len() <= crate::room::POWERUP_CAP,
                forall|a: int, b: int|
                    0 <= a < b < pus_after.len() ==> pus_after[a].position != pus_after[b].position
                        && pus_after[a].id != pus_after[b].id,
                forall|k: int|
                    0 <= k < pus_after.len() ==> crate::geometry::strictly_inside(
                        (#[trigger] pus_after[k]).position.x as int,
                        pus_after[k].position.y as int,
                        pre.grid_width,
                        pre.grid_height,
                    ),
                matched@.len() == n,
                forall|j: int|
                    0 <= j < n ==> #[trigger] matched@[j] == (if pre.players@[j].snake.alive && (
                    exists|k: int|
                        0 <= k < pre.power_ups@.len() && (#[trigger] pre.power_ups@[k]).position
                            == pre.players@[j].snake.body@[0]) {
                        Some(
                            pre.power_ups@[choose|k: int|
                                0 <= k < pre.power_ups@.len() && pre.power_ups@[k].position
                                    == pre.players@[j].snake.body@[0]].power_type,
                        )
                    } else {
                        None::<PowerUpType>
                    }),
                forall|j: int|
                    0 <= j < n ==> (#[trigger] pre.players@[j]).snake.score
                        + crate::room::GROW_SEGMENTS * GROWTH_SCORE <= u32::MAX,
                forall|j: int|
                    0 <= j < n ==> (#[trigger] pre.players@[j]).snake.body@.len()
                        + crate::room::GROW_SEGMENTS < usize::MAX,
                forall|j: int| i <= j < n ==> self.players@[j] == pre.players@[j],
                forall|j: int|
                    0 <= j < i ==> collect_outcome(
                        pre.power_ups@,
                        pre.players@[j],
                        #[trigger] self.players@[j],
                    ),
                forall|j: int|
                    0 <= j < i ==> player_wf(
                        #[trigger] self.players@[j],
                        pre.grid_width,
                        pre.grid_height,
                    ),
            decreases n - i,
        {
            proof {
                assert(player_wf(pre.players@[i as int], pre.grid_width, pre.grid_height));
            }
            match matched[i] {
                Some(t) => {
                    if t == PowerUpType::Grow {
                        let ghost before = self.players@[i as int].snake;
                        self.players[i].snake.grow();
                        self.players[i].snake.grow();
                        self.players[i].snake.grow();
                        self.players[i].snake.grow();
                        self.players[i].snake.grow();
                        proof {
                            assert(self.players@[i as int].snake.body@ =~= before.body@ + Seq::new(
                                crate::room::GROW_SEGMENTS as nat,
                                |q: int| before.body@.last(),
                            ));
                        }
                    } else {
                        self.players[i].active_power = Some(
                            ActivePowerUp {
                                power_type: t,
                                ticks_remaining: crate::room::effect_duration_exec(t),
                            },
                        );
                    }
                },
                None => {},
            }
            i = i + 1;
        }
        proof {
            assert forall|a: int, b: int|
                0 <= a < b < self.players@.len() implies self.players@[a].id@
                != self.players@[b].id@ by {
                assert(collect_outcome(pre.power_ups@, pre.players@[a], self.players@[a]));
                assert(collect_outcome(pre.power_ups@, pre.players@[b], self.players@[b]));
            }
        }
    }
}

/// How one snake's pending heading may change in the bot pass: nothing
/// for humans, the dead, and unconfigured bots; for a live bot, exactly a
/// `set_direction` request with a heading its tier allows, judged against
/// the state all decisions were read from.
pub open spec fn set_dir_snake(s: crate::snake::Snake, d: Direction, t: crate::snake::Snake) -> bool {
    &&& t.body == s.body
    &&& t.direction == s.direction
    &&& t.alive == s.alive
    &&& t.score == s.score
    &&& t.color == s.color
    &&& t.next_direction == (if d == s.direction.opposite_spec() {
        s.next_direction
    } else {
        d
    })
}

pub open spec fn bot_pass_outcome(pre: GameState, a: Player, b: Player) -> bool {
    &&& same_identity(a, b)
    &&& b.active_power == a.active_power
    &&& if a.is_bot && a.snake.alive && a.difficulty is Some {
        exists|d: Direction|
            crate::bot::bot_decision_ok(pre, a, Some(d)) && set_dir_snake(a.snake, d, b.snake)
    } else {
        b == a
    }
}

/// The score records owed when a round ends: one per player with a linked
/// account, in storage order, counted from index `i` on.
pub open spec fn submissions_from(players: Seq<Player>, i: int) -> Seq<(Seq<char>, Seq<char>, u32)>
    decreases players.len() - i,
{
    if i < 0 || i >= players.len() {
        Seq::empty()
    } else {
        let rest = submissions_from(players, i + 1);
        match (players[i].user_id, players[i].access_token) {
            (Some(u), Some(t)) => seq![(u@, t@, players[i].snake.score)] + rest,
            _ => rest,
        }
    }
}

impl GameState {
    /// Bot pass: every live bot reads the shared state and funnels its
    /// chosen heading through `set_direction`, exactly as human input is.
    /// All decisions are taken against the same state, so the outcome does
    /// not depend on the order in which the bots are asked.
    pub fn apply_bot_directions(&mut self)
        requires
            old(self).wf(),
        ensures
            *final(self) == (GameState { players: final(self).players, ..*old(self) }),
            final(self).players@.len() == old(self).players@.len(),
            forall|i: int|
                0 <= i < old(self).players@.len() ==> bot_pass_outcome(
                    *old(self),
                    old(self).players@[i],
                    #[trigger] final(self).players@[i],
                ),
            final(self).wf(),
    {
        let ghost pre = *self;
        let n = self.players.len();
        let mut decisions: Vec<Option<Direction>> = Vec::new();
        let mut i: usize = 0;
        while i < n
            invariant
                pre.wf(),
                *self == pre,
                n == pre.players@.len(),
                0 <= i <= n,
                decisions@.len() == i,
                forall|j: int|
                    0 <= j < i ==> #[trigger] decisions@[j] == (if pre.players@[j].is_bot
                        && pre.players@[j].snake.alive {
                        decisions@[j]
                    } else {
                        None::<Direction>
                    }),
                forall|j: int|
                    0 <= j < i && pre.players@[j].is_bot && pre.players@[j].snake.alive
                        ==> crate::bot::bot_decision_ok(
                        pre,
                        pre.players@[j],
                        #[trigger] decisions@[j],
                    ),
            decreases n - i,
        {
            let mut d: Option<Direction> = None;
            if self.players[i].is_bot && self.players[i].snake.alive {
                d = self.bot_decide_direction(&self.players[i].id);
                proof {
                    assert(pre.players@[i as int].id@ == pre.players@[i as int].id@);
                }
            }
            decisions.push(d);
            i = i + 1;
        }
        let mut i: usize = 0;
        while i < n
            invariant
                pre.wf(),
                n == pre.players@.len(),
                0 <= i <= n,
                decisions@.len() == n,
                forall|j: int|
                    0 <= j < n ==> #[trigger] decisions@[j] == (if pre.players@[j].is_bot
                        && pre.players@[j].snake.alive {
                        decisions@[j]
                    } else {
                        None::<Direction>
                    }),
                forall|j: int|
                    0 <= j < n && pre.players@[j].is_bot && pre.players@[j].snake.alive
                        ==> crate::bot::bot_decision_ok(
                        pre,
                        pre.players@[j],
                        #[trigger] decisions@[j],
                    ),
                *self == (GameState { players: self.players, ..pre }),
                self.players@.len() == n,
                forall|j: int| i <= j < n ==> self.players@[j] == pre.players@[j],
                forall|j: int|
                    0 <= j < i ==> bot_pass_outcome(
                        pre,
                        pre.players@[j],
                        #[trigger] self.players@[j],
                    ),
                forall|j: int|
                    0 <= j < i ==> player_wf(
                        #[trigger] self.players@[j],
                        pre.grid_width,
                        pre.grid_height,
                    ),
            decreases n - i,
        {
            proof {
                assert(player_wf(pre.players@[i as int], pre.grid_width, pre.grid_height));
            }
            match decisions[i] {
                Some(d) => {
                    self.players[i].snake.set_direction(d);
                    proof {
                        let a = pre.players@[i as int];
                        let b = self.players@[i as int];
                        assert(crate::bot::bot_decision_ok(pre, a, Some(d)));
                        assert(set_dir_snake(a.snake, d, b.snake));
                        assert(bot_pass_outcome(pre, a, b));
                    }
                },
                None => {},
            }
            i = i + 1;
        }
        proof {
            assert forall|a: int, b: int|
                0 <= a < b < self.players@.len() implies self.players@[a].id@
                != self.players@[b].id@ by {
                assert(bot_pass_outcome(pre, pre.players@[a], self.players@[a]));
                assert(bot_pass_outcome(pre, pre.players@[b], self.players@[b]));
            }
        }
    }

    /// Win phase: once more than one player has joined and at most one
    /// snake is left standing, the round ends; the sole survivor wins, or
    /// nobody does. A lone player's death also ends the round, with no
    /// winner even though the player remains. Returns whether the round
    /// ended on this call.
    pub fn check_winner(&mut self) -> (over: bool)
        requires
            old(self).wf(),
        ensures
            final(self).wf(),
            win_rel(*old(self), *final(self)),
            over == round_over(*old(self)),
    {
        let ghost pre = *self;
        let n = self.players.len();
        let mut alive: usize = 0;
        let mut first_alive: Option<usize> = None;
        let mut i: usize = 0;
        while i < n
            invariant
                *self == pre,
                n == pre.players@.len(),
                0 <= i <= n,
                alive as int == alive_count_from(pre.players@, 0) - alive_count_from(
                    pre.players@,
                    i as int,
                ),
                alive <= i,
                match first_alive {
                    Some(f) => f as int == first_alive_from(pre.players@, 0) && f < n,
                    None => forall|k: int| 0 <= k < i ==> !(#[trigger] pre.players@[k]).snake.alive,
                },
            decreases n - i,
        {
            if self.players[i].snake.alive {
                alive = alive + 1;
                if first_alive.is_none() {
                    proof {
                        lemma_first_alive_step(pre.players@, 0, i as int);
                    }
                    first_alive = Some(i);
                }
            }
            i = i + 1;
        }
        proof {
            if first_alive is None {
                lemma_first_alive_step(pre.players@, 0, n as int);
            }
        }
        if n > 1 && alive <= 1 {
            self.phase = GamePhase::GameOver;
            match first_alive {
                Some(f) => {
                    self.winner = Some(self.players[f].name.clone());
                },
                None => {
                    self.winner = None;
                },
            }
            true
        } else if n == 1 && alive == 0 {
            self.phase = GamePhase::GameOver;
            self.winner = None;
            true
        } else {
            false
        }
    }

    /// The score records owed for this round, one per player that joined
    /// with a linked account, in storage order.
    pub fn score_submissions(&self) -> (r: Vec<ScoreSubmission>)
        ensures
            r@.len() == submissions_from(self.players@, 0).len(),
            forall|k: int|
                0 <= k < r@.len() ==> {
                    let t = submissions_from(self.players@, 0)[k];
                    (#[trigger] r@[k]).user_id@ == t.0 && r@[k].access_token@ == t.1
                        && r@[k].score == t.2
                },
    {
        let n = self.players.len();
        let mut subs: Vec<ScoreSubmission> = Vec::new();
        let ghost mut acc: Seq<(Seq<char>, Seq<char>, u32)> = Seq::empty();
        let mut i: usize = 0;
        while i < n
            invariant
                n == self.players@.len(),
                0 <= i <= n,
                submissions_from(self.players@, 0) == acc + submissions_from(
                    self.players@,
                    i as int,
                ),
                acc.len() == subs@.len(),
                forall|k: int|
                    0 <= k < subs@.len() ==> (#[trigger] subs@[k]).user_id@ == acc[k].0
                        && subs@[k].access_token@ == acc[k].1 && subs@[k].score == acc[k].2,
            decreases n - i,
        {
            let p = &self.players[i];
            match (&p.user_id, &p.access_token) {
                (Some(u), Some(t)) => {
                    let entry = ScoreSubmission {
                        user_id: u.clone(),
                        access_token: t.clone(),
                        score: p.snake.score,
                    };
                    proof {
                        acc = acc.push(
                            (
                                self.players@[i as int].user_id.unwrap()@,
                                self.players@[i as int].access_token.unwrap()@,
                                self.players@[i as int].snake.score,
                            ),
                        );
                        assert(acc.drop_last() + submissions_from(self.players@, i as int)
                            =~= acc.drop_last() + (seq![acc.last()] + submissions_from(
                            self.players@,
                            i + 1,
                        )));
                    }
                    subs.push(entry);
                },
                _ => {},
            }
            i = i + 1;
        }
        proof {
            assert(submissions_from(self.players@, n as int) =~= Seq::<(
                Seq<char>,
                Seq<char>,
                u32,
            )>::empty());
            assert(submissions_from(self.players@, 0) =~= acc);
        }
        subs
    }
}

/// The living-snake count never goes negative.
pub proof fn lemma_alive_count_nonneg(players: Seq<Player>, i: int)
    ensures
        alive_count_from(players, i) >= 0,
    decreases players.len() - i,
{
    if 0 <= i < players.len() {
        lemma_alive_count_nonneg(players, i + 1);
    }
}

/// With no living snake left, there is no first living snake either.
pub proof fn lemma_no_alive_no_first(players: Seq<Player>, i: int)
    requires
        alive_count_from(players, i) == 0,
    ensures
        first_alive_from(players, i) == -1,
    decreases players.len() - i,
{
    if 0 <= i < players.len() {
        lemma_alive_count_nonneg(players, i + 1);
        lemma_no_alive_no_first(players, i + 1);
    }
}

/// Finding the first living snake at or past `j` explores one player at a
/// time.
pub proof fn lemma_first_alive_step(players: Seq<Player>, j: int, upto: int)
    requires
        0 <= j <= upto <= players.len(),
        forall|k: int| j <= k < upto ==> !(#[trigger] players[k]).snake.alive,
    ensures
        first_alive_from(players, j) == first_alive_from(players, upto),
    decreases upto - j,
{
    if j < upto {
        lemma_first_alive_step(players, j + 1, upto);
    }
}

/// Every element the collection pass keeps was already on the grid.
pub proof fn lemma_kept_powerups_sub(players: Seq<Player>, pus: Seq<PowerUp>, i: int)
    ensures
        forall|k: int|
            0 <= k < kept_powerups(players, pus, i).len() ==> exists|j: int|
                i <= j < pus.len() && #[trigger] kept_powerups(players, pus, i)[k] == pus[j],
    decreases pus.len() - i,
{
    if i < 0 || i >= pus.len() {
    } else {
        lemma_kept_powerups_sub(players, pus, i + 1);
        let cur = kept_powerups(players, pus, i);
        let rest = kept_powerups(players, pus, i + 1);
        assert forall|k: int| 0 <= k < cur.len() implies exists|j: int|
            i <= j < pus.len() && #[trigger] cur[k] == pus[j] by {
            if !alive_head_on(players, pus[i].position) {
                if k == 0 {
                    assert(cur[0] == pus[i]);
                } else {
                    assert(cur[k] == rest[k - 1]);
                    let j = choose|j: int| i + 1 <= j < pus.len() && rest[k - 1] == pus[j];
                    assert(cur[k] == pus[j]);
                }
            } else {
                assert(cur[k] == rest[k]);
                let j = choose|j: int| i + 1 <= j < pus.len() && rest[k] == pus[j];
                assert(cur[k] == pus[j]);
            }
        }
    }
}

/// Headroom the tick needs so that a snake that both eats and collects a
/// Grow power-up in the same tick overflows nothing.
pub open spec fn tick_ready(s: GameState) -> bool {
    forall|i: int|
        0 <= i < s.players@.len() ==> {
            &&& (#[trigger] s.players@[i]).snake.score + GROWTH_SCORE + crate::room::GROW_SEGMENTS
                * GROWTH_SCORE <= u32::MAX
            &&& s.players@[i].snake.body@.len() + 1 + crate::room::GROW_SEGMENTS < usize::MAX
        }
}

/// What a successful power-up placement adds: one fresh power-up, with
/// the next free id, on an interior cell free of snakes, food and other
/// power-ups.
pub open spec fn spawned_one(pre: GameRoom, post: GameRoom) -> bool {
    let added = post.state.power_ups@.last();
    &&& post.state.power_ups@ == pre.state.power_ups@.push(added)
    &&& added.id == pre.next_power_id
    &&& post.next_power_id == pre.next_power_id + 1
    &&& crate::geometry::strictly_inside(
        added.position.x as int,
        added.position.y as int,
        pre.state.grid_width,
        pre.state.grid_height,
    )
    &&& !crate::room::occupied(pre.state.players@, added.position)
    &&& !pre.state.food@.contains(added.position)
    &&& forall|k: int|
        0 <= k < pre.state.power_ups@.len() ==> (#[trigger] pre.state.power_ups@[k]).position
            != added.position
}

/// The whole spawn phase as a relation between the room before and after:
/// off-period ticks only advance the counter; a period boundary resets it
/// and either places one power-up or, when every probe landed on an
/// occupied cell, places none.
pub open spec fn spawn_step_rel(pre: GameRoom, post: GameRoom) -> bool {
    if pre.powerup_spawn_ticks + 1 >= crate::room::POWERUP_SPAWN_TICKS {
        &&& post.powerup_spawn_ticks == 0
        &&& ((post.state.power_ups == pre.state.power_ups && post.next_power_id
            == pre.next_power_id) || spawned_one(pre, post))
    } else {
        &&& post.powerup_spawn_ticks == pre.powerup_spawn_ticks + 1
        &&& post.state.power_ups == pre.state.power_ups
        &&& post.next_power_id == pre.next_power_id
    }
}

/// One isolated match room: the authoritative state, its settings, the
/// join code the registry allocated, and the engine's own counters. The
/// attached sessions live with the caller; the room only ever emits
/// `Outbound` values for the caller to deliver.
pub struct GameRoom {
    pub room_id: String,
    pub room_code: String,
    pub owner_id: Option<String>,
    pub settings: RoomSettings,
    pub state: GameState,
    pub powerup_spawn_ticks: u32,
    pub game_loop_running: bool,
    pub is_public: bool,
    pub next_power_id: u64,
}

impl GameRoom {
    /// The room invariant: a well-formed state, a spawn counter inside its
    /// period, and every on-grid power-up id below the allocation counter.
    pub open spec fn wf(self) -> bool {
        &&& self.state.wf()
        &&& self.powerup_spawn_ticks < crate::room::POWERUP_SPAWN_TICKS
        &&& forall|i: int|
            0 <= i < self.state.power_ups@.len() ==> (#[trigger] self.state.power_ups@[i]).id
                < self.next_power_id
    }

    /// A fresh room in the Lobby phase, its grid sized by the settings.
    pub fn new(room_id: String, room_code: String, settings: RoomSettings, is_public: bool) -> (r:
        GameRoom)
        ensures
            r.wf(),
            r.room_id@ == room_id@,
            r.room_code@ == room_code@,
            r.owner_id is None,
            r.settings == settings,
            r.state.phase == GamePhase::Lobby,
            r.state.players@.len() == 0,
            r.state.food@.len() == 0,
            r.state.power_ups@.len() == 0,
            r.state.winner is None,
            r.state.countdown == 0,
            (r.state.grid_width, r.state.grid_height) == settings.map_size.dimensions_spec(),
            r.powerup_spawn_ticks == 0,
            !r.game_loop_running,
            r.is_public == is_public,
            r.next_power_id == 0,
    {
        let dims = settings.map_size.dimensions();
        let mut state = GameState::new();
        state.grid_width = dims.0;
        state.grid_height = dims.1;
        GameRoom {
            room_id,
            room_code,
            owner_id: None,
            settings,
            state,
            powerup_spawn_ticks: 0,
            game_loop_running: false,
            is_public,
            next_power_id: 0,
        }
    }

    /// Power-up spawn phase: the interval counter advances; each time it
    /// completes its period it resets and one power-up of a random kind is
    /// placed on a random free interior cell, given that one of a bounded
    /// number of random probes finds such a cell.
    fn spawn_powerups_step(&mut self)
        requires
            old(self).wf(),
            old(self).next_power_id < u64::MAX,
        ensures
            final(self).wf(),
            *final(self) == (GameRoom {
                state: final(self).state,
                powerup_spawn_ticks: final(self).powerup_spawn_ticks,
                next_power_id: final(self).next_power_id,
                ..*old(self)
            }),
            final(self).state == (GameState {
                power_ups: final(self).state.power_ups,
                ..old(self).state
            }),
            spawn_step_rel(*old(self), *final(self)),
    {
        self.powerup_spawn_ticks = self.powerup_spawn_ticks + 1;
        if self.powerup_spawn_ticks >= crate::room::POWERUP_SPAWN_TICKS {
            self.powerup_spawn_ticks = 0;
            let roll = crate::rng::rand_below(4);
            let power_type = if roll == 0 {
                PowerUpType::SpeedBoost
            } else if roll == 1 {
                PowerUpType::Shield
            } else if roll == 2 {
                PowerUpType::Grow
            } else {
                PowerUpType::Phantom
            };
            if self.state.power_ups.len() < crate::room::POWERUP_CAP {
                let w = self.state.grid_width;
                let h = self.state.grid_height;
                let mut attempts: u32 = 0;
                let mut placed = false;
                while !placed && attempts < crate::room::POWERUP_PLACE_ATTEMPTS
                    invariant
                        old(self).wf(),
                        old(self).next_power_id < u64::MAX,
                        w == self.state.grid_width,
                        h == self.state.grid_height,
                        self.powerup_spawn_ticks == 0,
                        *self == (GameRoom {
                            state: self.state,
                            powerup_spawn_ticks: 0u32,
                            next_power_id: self.next_power_id,
                            ..*old(self)
                        }),
                        self.state == (GameState { power_ups: self.state.power_ups, ..old(self).state }),
                        !placed ==> self.state.power_ups == old(self).state.power_ups
                            && self.next_power_id == old(self).next_power_id
                            && self.state.power_ups@.len() < crate::room::POWERUP_CAP,
                        placed ==> spawned_one(
                            (GameRoom { powerup_spawn_ticks: self.powerup_spawn_ticks, ..*old(self) }),
                            *self,
                        ) && self.wf(),
                    decreases
                        crate::room::POWERUP_PLACE_ATTEMPTS - attempts,
                        (if placed { 0int } else { 1int }),
                {
                    let pos = Point {
                        x: 1 + crate::rng::rand_below((w - 2) as u32) as i32,
                        y: 1 + crate::rng::rand_below((h - 2) as u32) as i32,
                    };
                    let on_snake = crate::room::any_snake_at(&self.state.players, pos);
                    let on_food = crate::room::points_contain(&self.state.food, pos);
                    let on_powerup = index_of_powerup_at(&self.state.power_ups, pos).is_some();
                    if !on_snake && !on_food && !on_powerup {
                        let id = self.next_power_id;
                        self.state.power_ups.push(PowerUp { id, position: pos, power_type });
                        self.next_power_id = self.next_power_id + 1;
                        placed = true;
                    } else {
                        attempts = attempts + 1;
                    }
                }
            }
        }
    }
}

impl GameRoom {
    /// One simulation step, at the fixed interval, in the fixed order the
    /// design prescribes: power-up spawning, bot decisions, movement,
    /// walls, self- and cross-collisions, food, power-up collection,
    /// effect countdown, win check, broadcast. Returns the events to
    /// deliver and the score records owed if the round just ended.
    ///
    /// In Lobby and GameOver a tick is a no-op; in Countdown only the
    /// countdown advances. A Playing tick promises `playing_step`: some
    /// run of intermediate states links the old room to the new one
    /// through the per-phase relations, in order — so every phase's exact
    /// per-player outcome is visible at this boundary. On top of that
    /// come the promises that span the whole step: the roster never
    /// changes, a snake holding the phase-through effect survives, the
    /// food stock never grows, the round ends exactly when at most one of
    /// several players — or none of one — is left standing, and then the
    /// winner is the first living snake's owner or nobody.
    pub fn tick(&mut self) -> (r: (Vec<Outbound>, Vec<ScoreSubmission>))
        requires
            old(self).wf(),
            old(self).state.phase == GamePhase::Playing ==> tick_ready(old(self).state) && old(
                self,
            ).next_power_id < u64::MAX,
        ensures
            final(self).wf(),
            *final(self) == (GameRoom {
                state: final(self).state,
                powerup_spawn_ticks: final(self).powerup_spawn_ticks,
                next_power_id: final(self).next_power_id,
                ..*old(self)
            }),
            final(self).state.players@.len() == old(self).state.players@.len(),
            forall|i: int|
                0 <= i < old(self).state.players@.len() ==> same_identity(
                    #[trigger] old(self).state.players@[i],
                    final(self).state.players@[i],
                ),
            old(self).state.phase == GamePhase::Lobby ==> *final(self) == *old(self)
                && r.0@.len() == 0 && r.1@.len() == 0,
            old(self).state.phase == GamePhase::GameOver ==> *final(self) == *old(self)
                && r.0@.len() == 0 && r.1@.len() == 0,
            old(self).state.phase == GamePhase::Countdown ==> countdown_step_rel(
                old(self).state,
                final(self).state,
                r.0@,
            ) && r.1@.len() == 0 && final(self).powerup_spawn_ticks == old(
                self,
            ).powerup_spawn_ticks && final(self).next_power_id == old(self).next_power_id,
            old(self).state.phase == GamePhase::Playing ==> {
                &&& (final(self).state.phase == GamePhase::Playing || final(self).state.phase
                    == GamePhase::GameOver)
                &&& (final(self).state.phase == GamePhase::GameOver <==> round_over(
                    final(self).state,
                ))
                &&& (final(self).state.phase == GamePhase::Playing ==> final(self).state.winner
                    == old(self).state.winner)
                &&& forall|i: int|
                    0 <= i < old(self).state.players@.len() && (#[trigger] old(
                        self,
                    ).state.players@[i]).snake.alive && has_phantom(old(self).state.players@[i])
                        ==> final(self).state.players@[i].snake.alive
                &&& r.0@.len() >= 1
                &&& (r.0@.last() matches Outbound::Broadcast(ServerMessage::GameState(g))
                    && same_state(g, final(self).state))
                &&& (final(self).state.phase == GamePhase::GameOver ==> submissions_match(
                    r.1@,
                    final(self).state.players@,
                ))
                &&& (final(self).state.phase == GamePhase::Playing ==> r.1@.len() == 0)
                &&& (final(self).state.phase == GamePhase::GameOver ==> ({
                    let fa = first_alive_from(final(self).state.players@, 0);
                    if fa >= 0 {
                        match final(self).state.winner {
                            Some(w) => w@ == final(self).state.players@[fa].name@,
                            None => false,
                        }
                    } else {
                        final(self).state.winner is None
                    }
                }))
                &&& final(self).state.food@.len() <= old(self).state.food@.len()
                &&& playing_step(*old(self), *final(self))
            },
    {
        let ghost entry = *self;
        if matches!(self.state.phase, GamePhase::Countdown) {
            let mut events: Vec<Outbound> = Vec::new();
            if self.state.countdown > 0 {
                self.state.countdown_ticks = self.state.countdown_ticks + 1;
                if self.state.countdown_ticks >= crate::room::TICKS_PER_SECOND {
                    self.state.countdown = self.state.countdown - 1;
                    self.state.countdown_ticks = 0;
                    events.push(Outbound::Broadcast(ServerMessage::GameState(self.state.snapshot())));
                }
                if self.state.countdown == 0 {
                    self.state.phase = GamePhase::Playing;
                    events.push(Outbound::Broadcast(ServerMessage::GameStarted));
                    events.push(Outbound::Broadcast(ServerMessage::GameState(self.state.snapshot())));
                }
            }
            return (events, Vec::new());
        }
        if !matches!(self.state.phase, GamePhase::Playing) {
            return (Vec::new(), Vec::new());
        }

        self.spawn_powerups_step();
        let ghost g1 = *self;
        self.state.apply_bot_directions();
        let ghost g2 = self.state;
        self.state.move_snakes();
        let ghost g3 = self.state;
        self.state.wall_check();
        let ghost g4 = self.state;
        self.state.self_collisions();
        let ghost g5 = self.state;
        self.state.cross_collisions();
        let ghost g6 = self.state;

        proof {
            assert forall|i: int|
                0 <= i < g6.players@.len() implies (#[trigger] g6.players@[i]).snake.score
                + GROWTH_SCORE <= u32::MAX && g6.players@[i].snake.body@.len() < usize::MAX by {
                assert(bot_pass_outcome(g1.state, g1.state.players@[i], g2.players@[i]));
                assert(move_outcome(g2.players@[i], g3.players@[i]));
                assert(wall_outcome(g3.players@[i], g4.players@[i], g3.grid_width, g3.grid_height));
                assert(self_outcome(g4.players@[i], g5.players@[i]));
                assert(cross_outcome(g5.players@, i, g6.players@[i]));
            }
        }
        let eaten = self.state.consume_food();
        let ghost g7 = self.state;
        let mut e: usize = 0;
        while e < eaten
            invariant
                0 <= e <= eaten,
                self.state.wf(),
                self.state.food@.len() + eaten - e <= crate::room::FOOD_COUNT,
                self.state.food@.len() <= g7.food@.len() + e,
                g7.food@.len() <= self.state.food@.len(),
                self.state.food@.subrange(0, g7.food@.len() as int) == g7.food@,
                forall|k: int|
                    g7.food@.len() <= k < self.state.food@.len()
                        ==> crate::geometry::strictly_inside(
                        (#[trigger] self.state.food@[k]).x as int,
                        self.state.food@[k].y as int,
                        g7.grid_width,
                        g7.grid_height,
                    ) && !crate::room::occupied(g7.players@, self.state.food@[k]),
                *self == (GameRoom { state: self.state, ..g1 }),
                self.state == (GameState { food: self.state.food, ..g7 }),
            decreases eaten - e,
        {
            self.state.spawn_food();
            proof {
                assert(self.state.food@.subrange(0, g7.food@.len() as int) =~= g7.food@);
            }
            e = e + 1;
        }
        let ghost g8 = self.state;

        proof {
            assert forall|i: int|
                0 <= i < g8.players@.len() implies (#[trigger] g8.players@[i]).snake.score
                + crate::room::GROW_SEGMENTS * GROWTH_SCORE <= u32::MAX
                && g8.players@[i].snake.body@.len() + crate::room::GROW_SEGMENTS
                < usize::MAX by {
                assert(bot_pass_outcome(g1.state, g1.state.players@[i], g2.players@[i]));
                assert(move_outcome(g2.players@[i], g3.players@[i]));
                assert(wall_outcome(g3.players@[i], g4.players@[i], g3.grid_width, g3.grid_height));
                assert(self_outcome(g4.players@[i], g5.players@[i]));
                assert(cross_outcome(g5.players@, i, g6.players@[i]));
                assert(eat_outcome(g6.players@, g6.food@, i, g7.players@[i]));
            }
        }
        self.state.collect_powerups();
        let ghost g9 = self.state;
        proof {
            lemma_kept_powerups_sub(g8.players@, g8.power_ups@, 0);
        }
        self.state.decay_effects();
        let ghost g10 = self.state;

        let over = self.state.check_winner();
        let mut events: Vec<Outbound> = Vec::new();
        let mut submissions: Vec<ScoreSubmission> = Vec::new();
        if over {
            events.push(
                Outbound::Broadcast(
                    ServerMessage::GameOver { winner: clone_opt_string(&self.state.winner) },
                ),
            );
            submissions = self.state.score_submissions();
        }
        events.push(Outbound::Broadcast(ServerMessage::GameState(self.state.snapshot())));

        proof {
            let pre = entry.state;
            let fin = self.state;
            assert forall|i: int|
                0 <= i < pre.players@.len() implies same_identity(
                #[trigger] pre.players@[i],
                fin.players@[i],
            ) && (pre.players@[i].snake.alive && has_phantom(pre.players@[i])
                ==> fin.players@[i].snake.alive) by {
                assert(bot_pass_outcome(g1.state, g1.state.players@[i], g2.players@[i]));
                assert(move_outcome(g2.players@[i], g3.players@[i]));
                assert(wall_outcome(g3.players@[i], g4.players@[i], g3.grid_width, g3.grid_height));
                assert(self_outcome(g4.players@[i], g5.players@[i]));
                assert(cross_outcome(g5.players@, i, g6.players@[i]));
                assert(eat_outcome(g6.players@, g6.food@, i, g7.players@[i]));
                assert(collect_outcome(g8.power_ups@, g8.players@[i], g9.players@[i]));
                assert(decay_outcome(g9.players@[i], g10.players@[i]));
            }
            assert(self.state.players == g10.players);
            if alive_count_from(g10.players@, 0) == 0 {
                lemma_no_alive_no_first(g10.players@, 0);
            }
            assert(bots_rel(g1.state, g2));
            assert(move_rel(g2, g3));
            assert(wall_rel(g3, g4));
            assert(self_collision_rel(g4, g5));
            assert(cross_rel(g5, g6));
            assert(eat_rel(g6, g7));
            assert(respawn_rel(g7, g8));
            assert(collect_rel(g8, g9));
            assert(decay_rel(g9, g10));
            assert(win_rel(g10, self.state));
            assert(playing_chain(entry, g1, g2, g3, g4, g5, g6, g7, g8, g9, g10, *self));
            assert(playing_step(entry, *self));
        }
        (events, submissions)
    }
}

/// Whether the win condition holds of a state: of several players at most
/// one snake is left standing, or the lone player's snake has died.
pub open spec fn round_over(s: GameState) -> bool {
    ||| (s.players@.len() > 1 && alive_count_from(s.players@, 0) <= 1)
    ||| (s.players@.len() == 1 && alive_count_from(s.players@, 0) == 0)
}

/// What the win phase does to a state: when the win condition holds the
/// phase becomes GameOver and the winner is the first living snake's
/// owner, or nobody when none is left; otherwise nothing changes. Only
/// the phase and the winner are ever touched.
pub open spec fn win_rel(pre: GameState, post: GameState) -> bool {
    &&& post == (GameState { phase: post.phase, winner: post.winner, ..pre })
    &&& ({
        let n = pre.players@.len() as int;
        let ac = alive_count_from(pre.players@, 0);
        let fa = first_alive_from(pre.players@, 0);
        if n > 1 && ac <= 1 {
            &&& post.phase == GamePhase::GameOver
            &&& if fa >= 0 {
                match post.winner {
                    Some(w) => w@ == pre.players@[fa].name@,
                    None => false,
                }
            } else {
                post.winner is None
            }
        } else if n == 1 && ac == 0 {
            &&& post.phase == GamePhase::GameOver
            &&& post.winner is None
        } else {
            post == pre
        }
    })
}

/// What the bot pass does to a state, as a relation.
pub open spec fn bots_rel(pre: GameState, post: GameState) -> bool {
    &&& post == (GameState { players: post.players, ..pre })
    &&& post.players@.len() == pre.players@.len()
    &&& forall|i: int|
        0 <= i < pre.players@.len() ==> bot_pass_outcome(
            pre,
            pre.players@[i],
            #[trigger] post.players@[i],
        )
}

/// What the movement phase does to a state, as a relation.
pub open spec fn move_rel(pre: GameState, post: GameState) -> bool {
    &&& post == (GameState { players: post.players, ..pre })
    &&& post.players@.len() == pre.players@.len()
    &&& forall|i: int|
        0 <= i < pre.players@.len() ==> move_outcome(
            #[trigger] pre.players@[i],
            post.players@[i],
        )
}

/// What the wall phase does to a state, as a relation.
pub open spec fn wall_rel(pre: GameState, post: GameState) -> bool {
    &&& post == (GameState { players: post.players, ..pre })
    &&& post.players@.len() == pre.players@.len()
    &&& forall|i: int|
        0 <= i < pre.players@.len() ==> wall_outcome(
            #[trigger] pre.players@[i],
            post.players@[i],
            pre.grid_width,
            pre.grid_height,
        )
}

/// What the self-collision phase does to a state, as a relation.
pub open spec fn self_collision_rel(pre: GameState, post: GameState) -> bool {
    &&& post == (GameState { players: post.players, ..pre })
    &&& post.players@.len() == pre.players@.len()
    &&& forall|i: int|
        0 <= i < pre.players@.len() ==> self_outcome(
            #[trigger] pre.players@[i],
            post.players@[i],
        )
}

/// What the cross-collision phase does to a state, as a relation.
pub open spec fn cross_rel(pre: GameState, post: GameState) -> bool {
    &&& post == (GameState { players: post.players, ..pre })
    &&& post.players@.len() == pre.players@.len()
    &&& forall|i: int|
        0 <= i < pre.players@.len() ==> cross_outcome(
            pre.players@,
            i,
            #[trigger] post.players@[i],
        )
}

/// What the food-consumption pass does to a state, as a relation: the
/// remaining stock and every eater's growth, under sequential claiming.
pub open spec fn eat_rel(pre: GameState, post: GameState) -> bool {
    &&& post == (GameState { players: post.players, food: post.food, ..pre })
    &&& post.players@.len() == pre.players@.len()
    &&& post.food@ == food_progress(pre.players@, pre.food@, pre.players@.len() as int)
    &&& forall|i: int|
        0 <= i < pre.players@.len() ==> eat_outcome(
            pre.players@,
            pre.food@,
            i,
            #[trigger] post.players@[i],
        )
}

/// What the respawn pass does to a state, as a relation: the old stock
/// stays as a prefix and every appended replacement lies strictly inside
/// the walls on a cell free of snakes, never past the fixed count. When a
/// replacement's bounded random probes all land on occupied cells, fewer
/// items are appended — the documented transient drop on saturated grids.
pub open spec fn respawn_rel(pre: GameState, post: GameState) -> bool {
    &&& post == (GameState { food: post.food, ..pre })
    &&& pre.food@.len() <= post.food@.len() <= crate::room::FOOD_COUNT
    &&& post.food@.subrange(0, pre.food@.len() as int) == pre.food@
    &&& forall|k: int|
        pre.food@.len() <= k < post.food@.len() ==> crate::geometry::strictly_inside(
            (#[trigger] post.food@[k]).x as int,
            post.food@[k].y as int,
            pre.grid_width,
            pre.grid_height,
        ) && !crate::room::occupied(pre.players@, post.food@[k])
}

/// What the power-up collection phase does to a state, as a relation.
pub open spec fn collect_rel(pre: GameState, post: GameState) -> bool {
    &&& post == (GameState { players: post.players, power_ups: post.power_ups, ..pre })
    &&& post.players@.len() == pre.players@.len()
    &&& post.power_ups@ == kept_powerups(pre.players@, pre.power_ups@, 0)
    &&& forall|i: int|
        0 <= i < pre.players@.len() ==> collect_outcome(
            pre.power_ups@,
            pre.players@[i],
            #[trigger] post.players@[i],
        )
}

/// What the effect-countdown phase does to a state, as a relation.
pub open spec fn decay_rel(pre: GameState, post: GameState) -> bool {
    &&& post == (GameState { players: post.players, ..pre })
    &&& post.players@.len() == pre.players@.len()
    &&& forall|i: int|
        0 <= i < pre.players@.len() ==> decay_outcome(
            #[trigger] pre.players@[i],
            post.players@[i],
        )
}

/// The whole Playing step written out: the intermediate states a tick
/// passes through, each pair related by the corresponding phase relation,
/// in the fixed order the design prescribes. The food eaten is bounded by
/// what was respawned, so the stock never grows across a tick.
pub open spec fn playing_chain(
    pre: GameRoom,
    s1: GameRoom,
    s2: GameState,
    s3: GameState,
    s4: GameState,
    s5: GameState,
    s6: GameState,
    s7: GameState,
    s8: GameState,
    s9: GameState,
    s10: GameState,
    post: GameRoom,
) -> bool {
    &&& spawn_step_rel(pre, s1)
    &&& s1 == (GameRoom {
        state: s1.state,
        powerup_spawn_ticks: s1.powerup_spawn_ticks,
        next_power_id: s1.next_power_id,
        ..pre
    })
    &&& s1.state == (GameState { power_ups: s1.state.power_ups, ..pre.state })
    &&& bots_rel(s1.state, s2)
    &&& move_rel(s2, s3)
    &&& wall_rel(s3, s4)
    &&& self_collision_rel(s4, s5)
    &&& cross_rel(s5, s6)
    &&& eat_rel(s6, s7)
    &&& respawn_rel(s7, s8)
    &&& s8.food@.len() <= s6.food@.len()
    &&& collect_rel(s8, s9)
    &&& decay_rel(s9, s10)
    &&& win_rel(s10, post.state)
    &&& post == (GameRoom { state: post.state, ..s1 })
}

/// What a Playing tick does, end to end: some run of intermediate states
/// satisfies the chained phase relations above.
pub open spec fn playing_step(pre: GameRoom, post: GameRoom) -> bool {
    exists|s1: GameRoom, s2: GameState, s3: GameState, s4: GameState, s5: GameState,
        s6: GameState, s7: GameState, s8: GameState, s9: GameState, s10: GameState|
        #[trigger] playing_chain(pre, s1, s2, s3, s4, s5, s6, s7, s8, s9, s10, post)
}

/// What the countdown phase of a tick does, including the events emitted:
/// the sub-tick counter advances; each completed second steps the visible
/// countdown down and broadcasts; at zero the game starts.
pub open spec fn countdown_step_rel(pre: GameState, post: GameState, events: Seq<Outbound>) -> bool {
    &&& post == (GameState {
        phase: post.phase,
        countdown: post.countdown,
        countdown_ticks: post.countdown_ticks,
        ..pre
    })
    &&& if pre.countdown == 0 {
        post == pre && events.len() == 0
    } else if pre.countdown_ticks + 1 < crate::room::TICKS_PER_SECOND {
        &&& post.phase == GamePhase::Countdown
        &&& post.countdown == pre.countdown
        &&& post.countdown_ticks == pre.countdown_ticks + 1
        &&& events.len() == 0
    } else if pre.countdown > 1 {
        &&& post.phase == GamePhase::Countdown
        &&& post.countdown == pre.countdown - 1
        &&& post.countdown_ticks == 0
        &&& events.len() == 1
        &&& (events[0] matches Outbound::Broadcast(ServerMessage::GameState(g)) && same_state(
            g,
            post,
        ))
    } else {
        &&& post.phase == GamePhase::Playing
        &&& post.countdown == 0
        &&& post.countdown_ticks == 0
        &&& events.len() == 3
        &&& (events[0] matches Outbound::Broadcast(ServerMessage::GameState(g)) && same_state(
            g,
            (GameState { phase: GamePhase::Countdown, countdown: 0u8, countdown_ticks: 0u32, ..pre }),
        ))
        &&& (events[1] matches Outbound::Broadcast(ServerMessage::GameStarted))
        &&& (events[2] matches Outbound::Broadcast(ServerMessage::GameState(g)) && same_state(
            g,
            post,
        ))
    }
}

/// Whether the emitted score records are exactly those owed for `players`.
pub open spec fn submissions_match(subs: Seq<ScoreSubmission>, players: Seq<Player>) -> bool {
    &&& subs.len() == submissions_from(players, 0).len()
    &&& forall|k: int|
        0 <= k < subs.len() ==> {
            let t = submissions_from(players, 0)[k];
            (#[trigger] subs[k]).user_id@ == t.0 && subs[k].access_token@ == t.1 && subs[k].score
                == t.2
        }
}

/// Display color assigned to player slot `i`.
pub open spec fn color_spec(i: int) -> Seq<char> {
    if i % 4 == 0 {
        "#a855f7"@
    } else if i % 4 == 1 {
        "#22d3ee"@
    } else if i % 4 == 2 {
        "#f472b6"@
    } else {
        "#4ade80"@
    }
}

/// Display color assigned to player slot `idx`, executably.
pub fn player_color(idx: usize) -> (c: String)
    ensures
        c@ == color_spec(idx as int),
{
    let r = idx % 4;
    if r == 0 {
        String::from_str("#a855f7")
    } else if r == 1 {
        String::from_str("#22d3ee")
    } else if r == 2 {
        String::from_str("#f472b6")
    } else {
        String::from_str("#4ade80")
    }
}

/// The display name a bot of tier `d` joins under.
pub open spec fn bot_name_spec(d: BotDifficulty) -> Seq<char> {
    match d {
        BotDifficulty::Easy => "Easy"@ + " Bot"@,
        BotDifficulty::Medium => "Medium"@ + " Bot"@,
        BotDifficulty::Hard => "Hard"@ + " Bot"@,
    }
}

/// A freshly spawned snake sitting on slot `idx`: the fixed initial
/// length, trailing from the slot's cell against the slot's heading.
pub open spec fn snake_on_slot(s: crate::snake::Snake, idx: int, w: i32, h: i32) -> bool {
    let slot = crate::room::spawn_slot(idx, w, h);
    &&& s.body@.len() == crate::snake::INITIAL_SNAKE_LENGTH
    &&& forall|k: int|
        0 <= k < s.body@.len() ==> s.body@[k] == crate::snake::trail_cell(slot.0, slot.1, k)
    &&& s.direction == slot.1
    &&& s.next_direction == slot.1
    &&& s.alive
    &&& s.score == 0
    &&& s.color@ == color_spec(idx % 4)
}

/// The player a join request for slot `idx` creates.
pub open spec fn joined_player_ok(
    p: Player,
    id: Seq<char>,
    name: Seq<char>,
    user_id: Option<String>,
    access_token: Option<String>,
    idx: int,
    w: i32,
    h: i32,
) -> bool {
    &&& p.id@ == id
    &&& p.name@ == name
    &&& same_opt_string(p.user_id, user_id)
    &&& same_opt_string(p.access_token, access_token)
    &&& snake_on_slot(p.snake, idx, w, h)
    &&& !p.ready
    &&& p.active_power is None
    &&& !p.is_bot
    &&& p.difficulty is None
}

/// The player a bot spawn for slot `idx` creates: ready from the start.
pub open spec fn spawned_bot_ok(
    p: Player,
    id: Seq<char>,
    d: BotDifficulty,
    idx: int,
    w: i32,
    h: i32,
) -> bool {
    &&& p.id@ == id
    &&& p.name@ == bot_name_spec(d)
    &&& p.user_id is None
    &&& p.access_token is None
    &&& snake_on_slot(p.snake, idx, w, h)
    &&& p.ready
    &&& p.active_power is None
    &&& p.is_bot
    &&& p.difficulty == Some(d)
}

/// What a round start does to one player: everything kept but the snake,
/// which is rebuilt on the player's slot.
pub open spec fn reset_outcome(a: Player, b: Player, idx: int, w: i32, h: i32) -> bool {
    &&& same_identity(a, b)
    &&& b.active_power == a.active_power
    &&& snake_on_slot(b.snake, idx, w, h)
}

/// What starting a round does to the whole room: a no-op for an empty
/// room; otherwise every snake rebuilt on its slot, the stock replaced by
/// freshly placed food — every item strictly interior and clear of the
/// reset snakes, up to the fixed count, short only if the bounded random
/// placement saturates — no power-ups, the countdown armed, and the tick
/// timer requested exactly when no loop is running yet.
pub open spec fn start_rel(pre: GameRoom, post: GameRoom, events: Seq<Outbound>, start_timer: bool) -> bool {
    &&& post == (GameRoom {
        state: post.state,
        game_loop_running: post.game_loop_running,
        powerup_spawn_ticks: post.powerup_spawn_ticks,
        ..pre
    })
    &&& if pre.state.players@.len() == 0 {
        post == pre && events.len() == 0 && !start_timer
    } else {
        &&& post.state.players@.len() == pre.state.players@.len()
        &&& forall|i: int|
            0 <= i < pre.state.players@.len() ==> reset_outcome(
                #[trigger] pre.state.players@[i],
                post.state.players@[i],
                i,
                pre.state.grid_width,
                pre.state.grid_height,
            )
        &&& post.state.food@.len() <= crate::room::FOOD_COUNT
        &&& forall|k: int|
            0 <= k < post.state.food@.len() ==> crate::geometry::strictly_inside(
                (#[trigger] post.state.food@[k]).x as int,
                post.state.food@[k].y as int,
                pre.state.grid_width,
                pre.state.grid_height,
            ) && !crate::room::occupied(post.state.players@, post.state.food@[k])
        &&& post.state.power_ups@.len() == 0
        &&& post.powerup_spawn_ticks == 0
        &&& post.state.phase == GamePhase::Countdown
        &&& post.state.countdown == crate::room::COUNTDOWN_DURATION
        &&& post.state.countdown_ticks == 0
        &&& post.state.winner is None
        &&& post.game_loop_running
        &&& start_timer == !pre.game_loop_running
        &&& events.len() == 1
        &&& (events[0] matches Outbound::Broadcast(ServerMessage::GameState(g)) && same_state(
            g,
            post.state,
        ))
    }
}

impl GameRoom {
    /// A session attached: it is welcomed by name and handed the current
    /// snapshot so a lobby can render at once. Nothing changes in-room.
    pub fn connect(&self, id: &String) -> (events: Vec<Outbound>)
        ensures
            events@.len() == 2,
            (events@[0] matches Outbound::Direct(to, ServerMessage::Welcome { player_id })
                && to@ == id@ && player_id@ == id@),
            (events@[1] matches Outbound::Direct(to, ServerMessage::GameState(g)) && to@ == id@
                && same_state(g, self.state)),
    {
        let mut events: Vec<Outbound> = Vec::new();
        events.push(Outbound::Direct(id.clone(), ServerMessage::Welcome { player_id: id.clone() }));
        events.push(Outbound::Direct(id.clone(), ServerMessage::GameState(self.state.snapshot())));
        events
    }

    /// A session departed, for whatever reason — client close or heartbeat
    /// timeout are treated identically. The player leaves the roster, and
    /// when the last one is gone the room resets itself to an empty Lobby.
    /// The tick-loop guard is deliberately left alone: the loop starts
    /// exactly once per room lifetime and free-runs (a Lobby tick is a
    /// no-op), so a later round never arms a second timer and the
    /// simulation can never run at doubled speed.
    pub fn disconnect(&mut self, id: &String) -> (events: Vec<Outbound>)
        requires
            old(self).wf(),
        ensures
            final(self).wf(),
            *final(self) == (GameRoom {
                state: final(self).state,
                powerup_spawn_ticks: final(self).powerup_spawn_ticks,
                ..*old(self)
            }),
            (forall|k: int|
                0 <= k < old(self).state.players@.len() ==> (#[trigger] old(
                    self,
                ).state.players@[k]).id@ != id@) ==> final(self).state.players@ == old(
                self,
            ).state.players@,
            forall|k: int|
                0 <= k < old(self).state.players@.len() && (#[trigger] old(
                    self,
                ).state.players@[k]).id@ == id@ ==> final(self).state.players@ == old(
                    self,
                ).state.players@.remove(k),
            final(self).state.players@.len() == 0 ==> {
                &&& final(self).state.phase == GamePhase::Lobby
                &&& final(self).state.food@.len() == 0
                &&& final(self).state.power_ups@.len() == 0
                &&& final(self).state.winner is None
                &&& final(self).state.countdown == 0
                &&& final(self).powerup_spawn_ticks == 0
            },
            final(self).state.players@.len() > 0 ==> final(self).powerup_spawn_ticks == old(
                self,
            ).powerup_spawn_ticks && final(self).state == (GameState {
                players: final(self).state.players,
                ..old(self).state
            }),
            events@.len() == 2,
            (events@[0] matches Outbound::Broadcast(ServerMessage::PlayerLeft { player_id })
                && player_id@ == id@),
            (events@[1] matches Outbound::Broadcast(ServerMessage::GameState(g)) && same_state(
                g,
                final(self).state,
            )),
    {
        let ghost pre = *self;
        match self.state.find_player(id) {
            Some(k) => {
                self.state.players.remove(k);
                proof {
                    let oldp = pre.state.players@;
                    let newp = self.state.players@;
                    assert forall|a: int, b: int|
                        0 <= a < b < newp.len() implies newp[a].id@ != newp[b].id@ by {
                        let a0 = if a < k as int {
                            a
                        } else {
                            a + 1
                        };
                        let b0 = if b < k as int {
                            b
                        } else {
                            b + 1
                        };
                        assert(newp[a] == oldp[a0]);
                        assert(newp[b] == oldp[b0]);
                    }
                    assert forall|a: int|
                        0 <= a < newp.len() implies player_wf(
                        #[trigger] newp[a],
                        self.state.grid_width,
                        self.state.grid_height,
                    ) by {
                        let a0 = if a < k as int {
                            a
                        } else {
                            a + 1
                        };
                        assert(newp[a] == oldp[a0]);
                        assert(player_wf(oldp[a0], pre.state.grid_width, pre.state.grid_height));
                    }
                }
            },
            None => {},
        }
        let mut events: Vec<Outbound> = Vec::new();
        events.push(
            Outbound::Broadcast(ServerMessage::PlayerLeft { player_id: id.clone() }),
        );
        if self.state.players.len() == 0 {
            self.state.phase = GamePhase::Lobby;
            self.state.food.clear();
            self.state.power_ups.clear();
            self.state.winner = None;
            self.state.countdown = 0;
            self.powerup_spawn_ticks = 0;
        }
        events.push(Outbound::Broadcast(ServerMessage::GameState(self.state.snapshot())));
        events
    }

    /// Starts a round: every player's snake is rebuilt on its slot, the
    /// food is reseeded, the power-ups cleared, and the countdown begins.
    /// Returns the events to deliver and whether the caller must now start
    /// the fixed-interval tick timer — true at most once per loop
    /// lifetime, so the simulation can never run at doubled speed.
    pub fn start_game(&mut self) -> (r: (Vec<Outbound>, bool))
        requires
            old(self).wf(),
        ensures
            final(self).wf(),
            start_rel(*old(self), *final(self), r.0@, r.1),
    {
        if self.state.players.len() == 0 {
            return (Vec::new(), false);
        }
        let ghost pre = *self;
        let w = self.state.grid_width;
        let h = self.state.grid_height;
        let n = self.state.players.len();
        let mut i: usize = 0;
        while i < n
            invariant
                pre.wf(),
                n == pre.state.players@.len(),
                0 <= i <= n,
                w == pre.state.grid_width,
                h == pre.state.grid_height,
                *self == (GameRoom { state: self.state, ..pre }),
                self.state == (GameState { players: self.state.players, ..pre.state }),
                self.state.players@.len() == n,
                forall|j: int| i <= j < n ==> self.state.players@[j] == pre.state.players@[j],
                forall|j: int|
                    0 <= j < i ==> reset_outcome(
                        #[trigger] pre.state.players@[j],
                        self.state.players@[j],
                        j,
                        w,
                        h,
                    ),
                forall|j: int|
                    0 <= j < i ==> player_wf(#[trigger] self.state.players@[j], w, h),
            decreases n - i,
        {
            proof {
                assert(player_wf(pre.state.players@[i as int], w, h));
            }
            let slot = GameState::get_spawn_position(i, w, h);
            let color = player_color(i % 4);
            self.state.players[i].snake = crate::snake::Snake::new(slot.0, slot.1, color);
            proof {
                let a = pre.state.players@[i as int];
                let b = self.state.players@[i as int];
                assert((i as int) % 4 == (i % 4) as int);
                assert(snake_on_slot(b.snake, i as int, w, h));
                assert(reset_outcome(a, b, i as int, w, h));
                assert forall|k: int|
                    0 <= k < b.snake.body@.len() implies in_bounds(
                    #[trigger] b.snake.body@[k],
                    w,
                    h,
                ) by {
                    assert(b.snake.body@[k] == crate::snake::trail_cell(slot.0, slot.1, k));
                }
                assert(player_wf(b, w, h));
            }
            i = i + 1;
        }
        proof {
            assert forall|a: int, b: int|
                0 <= a < b < self.state.players@.len() implies self.state.players@[a].id@
                != self.state.players@[b].id@ by {
                assert(reset_outcome(pre.state.players@[a], self.state.players@[a], a, w, h));
                assert(reset_outcome(pre.state.players@[b], self.state.players@[b], b, w, h));
            }
        }
        self.state.food.clear();
        let mut f: usize = 0;
        while f < crate::room::FOOD_COUNT
            invariant
                0 <= f <= crate::room::FOOD_COUNT,
                self.state.wf(),
                self.state.food@.len() <= f,
                w == pre.state.grid_width,
                h == pre.state.grid_height,
                *self == (GameRoom { state: self.state, ..pre }),
                self.state == (GameState {
                    players: self.state.players,
                    food: self.state.food,
                    ..pre.state
                }),
                self.state.players@.len() == n,
                forall|j: int|
                    0 <= j < n ==> reset_outcome(
                        #[trigger] pre.state.players@[j],
                        self.state.players@[j],
                        j,
                        w,
                        h,
                    ),
                forall|k: int|
                    0 <= k < self.state.food@.len() ==> crate::geometry::strictly_inside(
                        (#[trigger] self.state.food@[k]).x as int,
                        self.state.food@[k].y as int,
                        w,
                        h,
                    ) && !crate::room::occupied(self.state.players@, self.state.food@[k]),
            decreases crate::room::FOOD_COUNT - f,
        {
            self.state.spawn_food();
            f = f + 1;
        }
        self.state.power_ups.clear();
        self.powerup_spawn_ticks = 0;
        self.state.phase = GamePhase::Countdown;
        self.state.countdown = crate::room::COUNTDOWN_DURATION;
        self.state.countdown_ticks = 0;
        self.state.winner = None;
        let mut events: Vec<Outbound> = Vec::new();
        events.push(Outbound::Broadcast(ServerMessage::GameState(self.state.snapshot())));
        let start_timer = !self.game_loop_running;
        self.game_loop_running = true;
        (events, start_timer)
    }
}

impl GameRoom {
    /// Adds a bot of the given tier under a caller-supplied fresh
    /// identity; bots join ready. A full room, and an identity already
    /// present, are both quietly refused, leaving the room untouched.
    pub fn spawn_bot(&mut self, difficulty: BotDifficulty, bot_id: String) -> (events: Vec<
        Outbound,
    >)
        requires
            old(self).wf(),
        ensures
            final(self).wf(),
            *final(self) == (GameRoom { state: final(self).state, ..*old(self) }),
            final(self).state == (GameState {
                players: final(self).state.players,
                ..old(self).state
            }),
            (old(self).state.players@.len() >= crate::room::MAX_PLAYERS || exists|k: int|
                0 <= k < old(self).state.players@.len() && (#[trigger] old(
                    self,
                ).state.players@[k]).id@ == bot_id@) ==> *final(self) == *old(self)
                && events@.len() == 0,
            (old(self).state.players@.len() < crate::room::MAX_PLAYERS && (forall|k: int|
                0 <= k < old(self).state.players@.len() ==> (#[trigger] old(
                    self,
                ).state.players@[k]).id@ != bot_id@)) ==> {
                &&& final(self).state.players@.len() == old(self).state.players@.len() + 1
                &&& forall|j: int|
                    0 <= j < old(self).state.players@.len() ==> final(self).state.players@[j]
                        == old(self).state.players@[j]
                &&& spawned_bot_ok(
                    final(self).state.players@.last(),
                    bot_id@,
                    difficulty,
                    old(self).state.players@.len() as int,
                    old(self).state.grid_width,
                    old(self).state.grid_height,
                )
                &&& events@.len() == 2
                &&& (events@[0] matches Outbound::Broadcast(
                    ServerMessage::PlayerJoined { player_id, name },
                ) && player_id@ == bot_id@ && name@ == bot_name_spec(difficulty))
                &&& (events@[1] matches Outbound::Broadcast(ServerMessage::GameState(g))
                    && same_state(g, final(self).state))
            },
    {
        if self.state.players.len() >= crate::room::MAX_PLAYERS {
            return Vec::new();
        }
        if self.state.find_player(&bot_id).is_some() {
            return Vec::new();
        }
        let bot_name = match difficulty {
            BotDifficulty::Easy => String::from_str("Easy").concat(" Bot"),
            BotDifficulty::Medium => String::from_str("Medium").concat(" Bot"),
            BotDifficulty::Hard => String::from_str("Hard").concat(" Bot"),
        };
        let idx = self.state.players.len();
        let slot = GameState::get_spawn_position(idx, self.state.grid_width, self.state.grid_height);
        let color = player_color(idx % 4);
        let ghost pre = *self;
        let bot_player = Player {
            id: bot_id.clone(),
            user_id: None,
            access_token: None,
            name: bot_name.clone(),
            snake: crate::snake::Snake::new(slot.0, slot.1, color),
            ready: true,
            active_power: None,
            is_bot: true,
            difficulty: Some(difficulty),
        };
        self.state.players.push(bot_player);
        proof {
            let b = self.state.players@.last();
            assert((idx as int) % 4 == (idx % 4) as int);
            assert forall|k: int|
                0 <= k < b.snake.body@.len() implies in_bounds(#[trigger] b.snake.body@[k], pre.state.grid_width, pre.state.grid_height) by {
                assert(b.snake.body@[k] == crate::snake::trail_cell(slot.0, slot.1, k));
            }
            assert(spawned_bot_ok(
                b,
                bot_id@,
                difficulty,
                pre.state.players@.len() as int,
                pre.state.grid_width,
                pre.state.grid_height,
            ));
            assert(player_wf(b, pre.state.grid_width, pre.state.grid_height));
        }
        let mut events: Vec<Outbound> = Vec::new();
        events.push(
            Outbound::Broadcast(
                ServerMessage::PlayerJoined { player_id: bot_id, name: bot_name },
            ),
        );
        events.push(Outbound::Broadcast(ServerMessage::GameState(self.state.snapshot())));
        events
    }

    /// One decoded client intent, applied to the authoritative state.
    /// Out-of-phase intents change nothing and earn the offending session
    /// — and it alone — an error event; joining a full or running room is
    /// refused the same way. Returns the events to deliver and whether the
    /// caller must now start the tick timer.
    pub fn client_action(&mut self, id: &String, msg: ClientMessage) -> (r: (Vec<Outbound>, bool))
        requires
            old(self).wf(),
        ensures
            final(self).wf(),
            (msg matches ClientMessage::Join { name, user_id, access_token } ==> join_rel(
                *old(self),
                *final(self),
                id@,
                name@,
                user_id,
                access_token,
                r.0@,
            ) && !r.1),
            (msg matches ClientMessage::Ready ==> ready_rel(
                *old(self),
                *final(self),
                id@,
                r.0@,
            ) && !r.1),
            (msg matches ClientMessage::Direction { direction } ==> direction_rel(
                *old(self),
                *final(self),
                id@,
                direction,
            ) && r.0@.len() == 0 && !r.1),
            (msg matches ClientMessage::StartGame ==> if all_ready(old(self).state) && old(
                self,
            ).state.phase == GamePhase::Lobby {
                start_rel(*old(self), *final(self), r.0@, r.1)
            } else {
                &&& *final(self) == *old(self)
                &&& !r.1
                &&& r.0@.len() == 1
                &&& (r.0@[0] matches Outbound::Direct(to, ServerMessage::Error { message })
                    && to@ == id@ && message@
                    == "Cannot start: game must be in the lobby with all players ready"@)
            }),
            (msg matches ClientMessage::Restart ==> lobby_reset_rel(
                *old(self),
                *final(self),
                id@,
                r.0@,
            ) && !r.1),
            (msg matches ClientMessage::PlayAgain ==> lobby_reset_rel(
                *old(self),
                *final(self),
                id@,
                r.0@,
            ) && !r.1),
    {
        match msg {
            ClientMessage::Join { name, user_id, access_token } => {
                if self.state.players.len() >= crate::room::MAX_PLAYERS {
                    let mut events: Vec<Outbound> = Vec::new();
                    events.push(
                        Outbound::Direct(
                            id.clone(),
                            ServerMessage::Error {
                                message: String::from_str("Room is full (max 4 players)"),
                            },
                        ),
                    );
                    return (events, false);
                }
                if matches!(self.state.phase, GamePhase::Playing) {
                    let mut events: Vec<Outbound> = Vec::new();
                    events.push(
                        Outbound::Direct(
                            id.clone(),
                            ServerMessage::Error {
                                message: String::from_str("Game already in progress"),
                            },
                        ),
                    );
                    return (events, false);
                }
                let ghost pre = *self;
                let idx = self.state.players.len();
                let slot = GameState::get_spawn_position(
                    idx,
                    self.state.grid_width,
                    self.state.grid_height,
                );
                let color = player_color(idx % 4);
                let player = Player {
                    id: id.clone(),
                    user_id: clone_opt_string(&user_id),
                    access_token: clone_opt_string(&access_token),
                    name: name.clone(),
                    snake: crate::snake::Snake::new(slot.0, slot.1, color),
                    ready: false,
                    active_power: None,
                    is_bot: false,
                    difficulty: None,
                };
                proof {
                    assert((idx as int) % 4 == (idx % 4) as int);
                    assert forall|k: int|
                        0 <= k < player.snake.body@.len() implies in_bounds(
                        #[trigger] player.snake.body@[k],
                        pre.state.grid_width,
                        pre.state.grid_height,
                    ) by {
                        assert(player.snake.body@[k] == crate::snake::trail_cell(
                            slot.0,
                            slot.1,
                            k,
                        ));
                    }
                    assert(joined_player_ok(
                        player,
                        id@,
                        name@,
                        user_id,
                        access_token,
                        pre.state.players@.len() as int,
                        pre.state.grid_width,
                        pre.state.grid_height,
                    ));
                    assert(player_wf(player, pre.state.grid_width, pre.state.grid_height));
                }
                match self.state.find_player(id) {
                    Some(k) => {
                        self.state.players[k] = player;
                    },
                    None => {
                        self.state.players.push(player);
                    },
                }
                let mut events: Vec<Outbound> = Vec::new();
                events.push(
                    Outbound::Broadcast(
                        ServerMessage::PlayerJoined { player_id: id.clone(), name },
                    ),
                );
                events.push(
                    Outbound::Broadcast(ServerMessage::GameState(self.state.snapshot())),
                );
                (events, false)
            },
            ClientMessage::Ready => {
                match self.state.find_player(id) {
                    Some(k) => {
                        self.state.players[k].ready = true;
                    },
                    None => {},
                }
                let mut events: Vec<Outbound> = Vec::new();
                events.push(
                    Outbound::Broadcast(ServerMessage::GameState(self.state.snapshot())),
                );
                (events, false)
            },
            ClientMessage::Direction { direction } => {
                match self.state.find_player(id) {
                    Some(k) => {
                        self.state.players[k].snake.set_direction(direction);
                    },
                    None => {},
                }
                (Vec::new(), false)
            },
            ClientMessage::StartGame => {
                let ready = self.check_all_ready();
                if ready && matches!(self.state.phase, GamePhase::Lobby) {
                    self.start_game()
                } else {
                    let mut events: Vec<Outbound> = Vec::new();
                    events.push(
                        Outbound::Direct(
                            id.clone(),
                            ServerMessage::Error {
                                message: String::from_str(
                                    "Cannot start: game must be in the lobby with all players ready",
                                ),
                            },
                        ),
                    );
                    (events, false)
                }
            },
            ClientMessage::Restart => self.reset_to_lobby(id),
            ClientMessage::PlayAgain => self.reset_to_lobby(id),
        }
    }

    /// Whether at least one player is present and every one is ready.
    fn check_all_ready(&self) -> (r: bool)
        ensures
            r == all_ready(self.state),
    {
        if self.state.players.len() == 0 {
            return false;
        }
        let mut i: usize = 0;
        while i < self.state.players.len()
            invariant
                0 <= i <= self.state.players@.len(),
                forall|j: int| 0 <= j < i ==> (#[trigger] self.state.players@[j]).ready,
            decreases self.state.players@.len() - i,
        {
            if !self.state.players[i].ready {
                return false;
            }
            i = i + 1;
        }
        true
    }

    /// After a finished round, an explicit restart (or a rematch request)
    /// sends everyone back to the Lobby with their ready flags cleared;
    /// the roster itself is untouched. In any other phase the state is
    /// left alone and the requester alone is told off.
    fn reset_to_lobby(&mut self, id: &String) -> (r: (Vec<Outbound>, bool))
        requires
            old(self).wf(),
        ensures
            final(self).wf(),
            lobby_reset_rel(*old(self), *final(self), id@, r.0@),
            !r.1,
    {
        if !matches!(self.state.phase, GamePhase::GameOver) {
            let mut events: Vec<Outbound> = Vec::new();
            events.push(
                Outbound::Direct(
                    id.clone(),
                    ServerMessage::Error {
                        message: String::from_str("No finished game to restart"),
                    },
                ),
            );
            return (events, false);
        }
        let ghost pre = *self;
        self.state.phase = GamePhase::Lobby;
        let n = self.state.players.len();
        let mut i: usize = 0;
        while i < n
            invariant
                pre.wf(),
                n == pre.state.players@.len(),
                0 <= i <= n,
                *self == (GameRoom { state: self.state, ..pre }),
                self.state == (GameState {
                    phase: GamePhase::Lobby,
                    players: self.state.players,
                    ..pre.state
                }),
                self.state.players@.len() == n,
                forall|j: int| i <= j < n ==> self.state.players@[j] == pre.state.players@[j],
                forall|j: int|
                    0 <= j < i ==> #[trigger] self.state.players@[j] == (Player {
                        ready: false,
                        ..pre.state.players@[j]
                    }),
            decreases n - i,
        {
            proof {
                assert(player_wf(
                    pre.state.players@[i as int],
                    pre.state.grid_width,
                    pre.state.grid_height,
                ));
            }
            self.state.players[i].ready = false;
            i = i + 1;
        }
        proof {
            assert forall|a: int|
                0 <= a < self.state.players@.len() implies player_wf(
                #[trigger] self.state.players@[a],
                self.state.grid_width,
                self.state.grid_height,
            ) by {
                assert(player_wf(
                    pre.state.players@[a],
                    pre.state.grid_width,
                    pre.state.grid_height,
                ));
            }
        }
        let mut events: Vec<Outbound> = Vec::new();
        events.push(Outbound::Broadcast(ServerMessage::GameState(self.state.snapshot())));
        (events, false)
    }
}

/// Whether at least one player is present and every one has readied up:
/// the condition for leaving the Lobby.
pub open spec fn all_ready(s: GameState) -> bool {
    s.players@.len() > 0 && forall|i: int| 0 <= i < s.players@.len() ==> (#[trigger] s.players@[i]).ready
}

/// What a join request does to the room.
pub open spec fn join_rel(
    pre: GameRoom,
    post: GameRoom,
    id: Seq<char>,
    name: Seq<char>,
    user_id: Option<String>,
    access_token: Option<String>,
    events: Seq<Outbound>,
) -> bool {
    if pre.state.players@.len() >= crate::room::MAX_PLAYERS {
        &&& post == pre
        &&& events.len() == 1
        &&& (events[0] matches Outbound::Direct(to, ServerMessage::Error { message }) && to@ == id
            && message@ == "Room is full (max 4 players)"@)
    } else if pre.state.phase == GamePhase::Playing {
        &&& post == pre
        &&& events.len() == 1
        &&& (events[0] matches Outbound::Direct(to, ServerMessage::Error { message }) && to@ == id
            && message@ == "Game already in progress"@)
    } else {
        &&& post == (GameRoom { state: post.state, ..pre })
        &&& post.state == (GameState { players: post.state.players, ..pre.state })
        &&& ((forall|k: int|
            0 <= k < pre.state.players@.len() ==> (#[trigger] pre.state.players@[k]).id@ != id)
            ==> post.state.players@.len() == pre.state.players@.len() + 1 && (forall|j: int|
            0 <= j < pre.state.players@.len() ==> post.state.players@[j]
                == pre.state.players@[j]) && joined_player_ok(
            post.state.players@.last(),
            id,
            name,
            user_id,
            access_token,
            pre.state.players@.len() as int,
            pre.state.grid_width,
            pre.state.grid_height,
        ))
        &&& (forall|k: int|
            0 <= k < pre.state.players@.len() && (#[trigger] pre.state.players@[k]).id@ == id
                ==> post.state.players@.len() == pre.state.players@.len() && (forall|j: int|
                0 <= j < pre.state.players@.len() && j != k ==> post.state.players@[j]
                    == pre.state.players@[j]) && joined_player_ok(
                post.state.players@[k],
                id,
                name,
                user_id,
                access_token,
                pre.state.players@.len() as int,
                pre.state.grid_width,
                pre.state.grid_height,
            ))
        &&& events.len() == 2
        &&& (events[0] matches Outbound::Broadcast(
            ServerMessage::PlayerJoined { player_id, name: n2 },
        ) && player_id@ == id && n2@ == name)
        &&& (events[1] matches Outbound::Broadcast(ServerMessage::GameState(g)) && same_state(
            g,
            post.state,
        ))
    }
}

/// What a ready signal does to the room.
pub open spec fn ready_rel(pre: GameRoom, post: GameRoom, id: Seq<char>, events: Seq<Outbound>) -> bool {
    &&& post == (GameRoom { state: post.state, ..pre })
    &&& post.state == (GameState { players: post.state.players, ..pre.state })
    &&& ((forall|k: int|
        0 <= k < pre.state.players@.len() ==> (#[trigger] pre.state.players@[k]).id@ != id)
        ==> post.state.players@ == pre.state.players@)
    &&& (forall|k: int|
        0 <= k < pre.state.players@.len() && (#[trigger] pre.state.players@[k]).id@ == id
            ==> post.state.players@ == pre.state.players@.update(
            k,
            (Player { ready: true, ..pre.state.players@[k] }),
        ))
    &&& events.len() == 1
    &&& (events[0] matches Outbound::Broadcast(ServerMessage::GameState(g)) && same_state(
        g,
        post.state,
    ))
}

/// What a direction request does to the room: exactly a `set_direction`
/// on the requester's snake, with the anti-reversal rule applied there.
pub open spec fn direction_rel(pre: GameRoom, post: GameRoom, id: Seq<char>, d: Direction) -> bool {
    &&& post == (GameRoom { state: post.state, ..pre })
    &&& post.state == (GameState { players: post.state.players, ..pre.state })
    &&& ((forall|k: int|
        0 <= k < pre.state.players@.len() ==> (#[trigger] pre.state.players@[k]).id@ != id)
        ==> post.state.players@ == pre.state.players@)
    &&& (forall|k: int|
        0 <= k < pre.state.players@.len() && (#[trigger] pre.state.players@[k]).id@ == id ==> {
            let b = post.state.players@[k];
            &&& post.state.players@ == pre.state.players@.update(k, b)
            &&& same_identity(pre.state.players@[k], b)
            &&& b.active_power == pre.state.players@[k].active_power
            &&& set_dir_snake(pre.state.players@[k].snake, d, b.snake)
        })
}

/// What a restart or rematch request does to the room: from GameOver back
/// to the Lobby with all ready flags cleared; in any other phase the
/// state is untouched and the offending session alone receives an error.
pub open spec fn lobby_reset_rel(pre: GameRoom, post: GameRoom, id: Seq<char>, events: Seq<Outbound>) -> bool {
    if pre.state.phase != GamePhase::GameOver {
        &&& post == pre
        &&& events.len() == 1
        &&& (events[0] matches Outbound::Direct(to, ServerMessage::Error { message }) && to@ == id
            && message@ == "No finished game to restart"@)
    } else {
        &&& post == (GameRoom { state: post.state, ..pre })
        &&& post.state == (GameState {
            phase: GamePhase::Lobby,
            players: post.state.players,
            ..pre.state
        })
        &&& post.state.players@.len() == pre.state.players@.len()
        &&& forall|j: int|
            0 <= j < pre.state.players@.len() ==> #[trigger] post.state.players@[j] == (Player {
                ready: false,
                ..pre.state.players@[j]
            })
        &&& events.len() == 1
        &&& (events[0] matches Outbound::Broadcast(ServerMessage::GameState(g)) && same_state(
            g,
            post.state,
        ))
    }
}

/// The wall law: a living snake that stepped off the grid while holding
/// the phase-through effect reappears on the opposite edge, alive and
/// with its body length unchanged; with any other protection or none —
/// Shield does not cover walls — it dies.
pub proof fn lemma_wall_phantom(a: Player, b: Player, w: i32, h: i32)
    requires
        w >= 1,
        h >= 1,
        a.snake.body@.len() >= 1,
        a.snake.alive,
        !in_bounds(a.snake.body@[0], w, h),
        wall_outcome(a, b, w, h),
    ensures
        has_phantom(a) ==> b.snake.alive && b.snake.body@.len() == a.snake.body@.len()
            && in_bounds(b.snake.body@[0], w, h),
        !has_phantom(a) ==> !b.snake.alive,
{
}

/// The protection law: a snake holding Shield or the phase-through effect
/// is never killed by a self- or cross-collision in that tick — both
/// checks leave it exactly as it was.
pub proof fn lemma_protection_covers_collisions(players: Seq<Player>, i: int, b1: Player, b2: Player)
    requires
        0 <= i < players.len(),
        protected(players[i]),
        self_outcome(players[i], b1),
        cross_outcome(players, i, b2),
    ensures
        b1 == players[i],
        b2 == players[i],
{
}

/// The expiry law: once a timed effect reaches its last tick, the
/// countdown removes it, and the owner is vulnerable again from the next
/// tick on.
pub proof fn lemma_effect_expiry(a: Player, b: Player)
    requires
        decay_outcome(a, b),
        match a.active_power {
            Some(ap) => ap.ticks_remaining <= 1,
            None => true,
        },
    ensures
        b.active_power is None,
        !protected(b),
        !has_phantom(b),
{
}

} // verus!
