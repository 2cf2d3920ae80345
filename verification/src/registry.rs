//! Room settings and the room registry: creating rooms, allocating unique
//! human-readable join codes, and resolving codes back to rooms.

use vstd::prelude::*;

use crate::rng::rand_below;
use crate::room::MAX_PLAYERS;

verus! {

#[derive(Clone, Copy, Debug, PartialEq, Eq, Structural)]
pub enum GameSpeed {
    Slow,
    Normal,
    Fast,
}

impl GameSpeed {
    /// The tick interval this speed tier asks for. The engine itself runs
    /// at the fixed interval regardless; the tier is carried in the room
    /// settings for clients to display.
    pub fn to_millis(&self) -> (r: u64)
        ensures
            r == self.to_millis_spec(),
    {
        match self {
            GameSpeed::Slow => 200,
            GameSpeed::Normal => 150,
            GameSpeed::Fast => 100,
        }
    }

    pub open spec fn to_millis_spec(self) -> u64 {
        match self {
            GameSpeed::Slow => 200,
            GameSpeed::Normal => 150,
            GameSpeed::Fast => 100,
        }
    }
}

#[derive(Clone, Copy, Debug, PartialEq, Eq, Structural)]
pub enum MapSize {
    Small,
    Medium,
    Large,
}

impl MapSize {
    /// Grid width and height of this map size; all three lie well inside
    /// the dimension limits the room invariant asks for.
    pub fn dimensions(&self) -> (r: (i32, i32))
        ensures
            r == self.dimensions_spec(),
            crate::room::MIN_GRID_DIM <= r.0 <= crate::room::MAX_GRID_DIM,
            crate::room::MIN_GRID_DIM <= r.1 <= crate::room::MAX_GRID_DIM,
    {
        match self {
            MapSize::Small => (40, 30),
            MapSize::Medium => (50, 35),
            MapSize::Large => (60, 40),
        }
    }

    pub open spec fn dimensions_spec(self) -> (i32, i32) {
        match self {
            MapSize::Small => (40, 30),
            MapSize::Medium => (50, 35),
            MapSize::Large => (60, 40),
        }
    }
}

#[derive(Clone, Copy, Debug)]
pub struct RoomSettings {
    pub max_players: usize,
    /// Displayed speed tier; the engine ticks at its fixed interval
    /// regardless, as the simulation always has.
    pub speed: GameSpeed,
    /// Displayed flag; the engine's spawn schedule does not consult it.
    pub power_ups_enabled: bool,
    pub rounds: u8,
    pub map_size: MapSize,
}

impl Default for RoomSettings {
    /// Four players, normal speed, power-ups on, one round, medium map.
    fn default() -> (r: RoomSettings)
        ensures
            r.max_players == MAX_PLAYERS,
            r.speed == GameSpeed::Normal,
            r.power_ups_enabled,
            r.rounds == 1,
            r.map_size == MapSize::Medium,
    {
        RoomSettings {
            max_players: MAX_PLAYERS,
            speed: GameSpeed::Normal,
            power_ups_enabled: true,
            rounds: 1,
            map_size: MapSize::Medium,
        }
    }
}

/// A registry listing entry describing one room.
pub struct RoomInfo {
    pub code: String,
    pub owner_name: Option<String>,
    pub player_count: usize,
    pub max_players: usize,
    pub settings: RoomSettings,
    pub status: String,
}

/// Join-code length.
pub const CODE_LENGTH: usize = 6;

/// Size of the join-code alphabet.
pub const CODE_ALPHABET_LEN: usize = 32;

/// The permitted join-code alphabet: capitals and digits with the visually
/// confusable I, O, 0 and 1 left out.
pub open spec fn code_alphabet() -> Seq<char> {
    "ABCDEFGHJKLMNPQRSTUVWXYZ23456789"@
}

/// Whether `c` may appear in a join code.
pub open spec fn is_code_char(c: char) -> bool {
    code_alphabet().contains(c)
}

/// The `i`-th letter of the join-code alphabet.
fn code_char(i: usize) -> (c: char)
    requires
        i < CODE_ALPHABET_LEN,
    ensures
        c == code_alphabet()[i as int],
{
    proof {
        reveal_strlit("ABCDEFGHJKLMNPQRSTUVWXYZ23456789");
    }
    "ABCDEFGHJKLMNPQRSTUVWXYZ23456789".get_char(i)
}

/// Relies on std's `String::push`: appends exactly the one character.
#[verifier::external_body]
fn push_char(s: &mut String, c: char)
    ensures
        final(s)@ == old(s)@.push(c),
{
    s.push(c);
}

/// Draws a fresh join code: a fixed-length word over the permitted
/// alphabet. Uniqueness against live rooms is the registry's business.
pub fn generate_room_code() -> (code: String)
    ensures
        code@.len() == CODE_LENGTH,
        forall|k: int| 0 <= k < code@.len() ==> is_code_char(#[trigger] code@[k]),
{
    let mut code = String::new();
    let mut i: usize = 0;
    while i < CODE_LENGTH
        invariant
            code@.len() == i,
            i <= CODE_LENGTH,
            forall|k: int| 0 <= k < code@.len() ==> is_code_char(#[trigger] code@[k]),
        decreases CODE_LENGTH - i,
    {
        let idx = rand_below(CODE_ALPHABET_LEN as u32) as usize;
        let c = code_char(idx);
        push_char(&mut code, c);
        proof {
            reveal_strlit("ABCDEFGHJKLMNPQRSTUVWXYZ23456789");
            assert(code_alphabet()[idx as int] == c);
        }
        i = i + 1;
    }
    code
}

/// One code-to-room binding held by the registry.
pub struct RoomCodeEntry {
    pub code: String,
    pub room_id: String,
}

/// The process-wide room registry: it owns the bidirectional mapping from
/// join codes to room identities. Rooms themselves live with the caller;
/// the registry only ever hands out identities.
pub struct RoomManager {
    pub room_codes: Vec<RoomCodeEntry>,
}

impl RoomManager {
    /// No two live rooms ever share a join code, and every registered code
    /// is a well-formed code word.
    pub open spec fn wf(self) -> bool {
        &&& forall|i: int, j: int|
            0 <= i < j < self.room_codes@.len() ==> self.room_codes@[i].code@
                != self.room_codes@[j].code@
        &&& forall|i: int|
            0 <= i < self.room_codes@.len() ==> (#[trigger] self.room_codes@[i]).code@.len()
                == CODE_LENGTH
        &&& forall|i: int, k: int|
            0 <= i < self.room_codes@.len() && 0 <= k < CODE_LENGTH ==> is_code_char(
                #[trigger] self.room_codes@[i].code@[k],
            )
    }

    pub open spec fn has_code(self, code: Seq<char>) -> bool {
        exists|i: int| 0 <= i < self.room_codes@.len() && self.room_codes@[i].code@ == code
    }

    pub fn new() -> (r: RoomManager)
        ensures
            r.wf(),
            r.room_codes@.len() == 0,
    {
        RoomManager { room_codes: Vec::new() }
    }

    /// Index of the entry bound to `code`, if any.
    fn find_code(&self, code: &String) -> (r: Option<usize>)
        ensures
            match r {
                Some(i) => i < self.room_codes@.len() && self.room_codes@[i as int].code@
                    == code@,
                None => !self.has_code(code@),
            },
    {
        let mut i: usize = 0;
        while i < self.room_codes.len()
            invariant
                0 <= i <= self.room_codes@.len(),
                forall|j: int| 0 <= j < i ==> (#[trigger] self.room_codes@[j]).code@ != code@,
            decreases self.room_codes@.len() - i,
        {
            if self.room_codes[i].code == *code {
                return Some(i);
            }
            i = i + 1;
        }
        None
    }

    /// Allocates a fresh join code — redrawing on a collision with any
    /// live room — and binds it to `room_id`. Fails only in the
    /// vanishingly unlikely event that every draw collides.
    pub fn register_room(&mut self, room_id: String) -> (r: Option<String>)
        requires
            old(self).wf(),
        ensures
            final(self).wf(),
            match r {
                Some(code) => {
                    &&& code@.len() == CODE_LENGTH
                    &&& forall|k: int| 0 <= k < code@.len() ==> is_code_char(#[trigger] code@[k])
                    &&& !old(self).has_code(code@)
                    &&& final(self).has_code(code@)
                    &&& final(self).room_codes@.len() == old(self).room_codes@.len() + 1
                    &&& forall|i: int|
                        0 <= i < old(self).room_codes@.len() ==> final(self).room_codes@[i]
                            == old(self).room_codes@[i]
                    &&& final(self).room_codes@.last().code@ == code@
                    &&& final(self).room_codes@.last().room_id@ == room_id@
                },
                None => *final(self) == *old(self),
            },
    {
        let mut attempts: u32 = 0;
        while attempts < 1000
            invariant
                self.wf(),
                *self == *old(self),
            decreases 1000 - attempts,
        {
            let code = generate_room_code();
            if self.find_code(&code).is_none() {
                let returned = code.clone();
                let id_copy = room_id;
                self.room_codes.push(RoomCodeEntry { code, room_id: id_copy });
                proof {
                    let n = self.room_codes@.len() - 1;
                    assert(self.room_codes@[n].code@ == returned@);
                    assert(self.has_code(returned@));
                }
                return Some(returned);
            }
            attempts = attempts + 1;
        }
        None
    }

    /// Resolves a join code to the identity of the room it names, or
    /// reports that no live room carries it.
    pub fn resolve_code(&self, code: &String) -> (r: Option<&String>)
        ensures
            match r {
                Some(id) => exists|i: int|
                    0 <= i < self.room_codes@.len() && self.room_codes@[i].code@ == code@
                        && id@ == self.room_codes@[i].room_id@,
                None => !self.has_code(code@),
            },
    {
        match self.find_code(code) {
            Some(i) => Some(&self.room_codes[i].room_id),
            None => None,
        }
    }
}

/// Join codes never repeat among live rooms: with the registry invariant,
/// two distinct registered rooms always carry different codes.
pub proof fn lemma_codes_unique(m: RoomManager, i: int, j: int)
    requires
        m.wf(),
        0 <= i < m.room_codes@.len(),
        0 <= j < m.room_codes@.len(),
        i != j,
    ensures
        m.room_codes@[i].code@ != m.room_codes@[j].code@,
{
}

} // verus!
