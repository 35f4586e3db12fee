//! Players, the table they sit at, and the phase machine of a game.

use vstd::prelude::*;
use vstd::set_lib::{lemma_int_range, lemma_len_subset, set_int_range};
use crate::cards::{Card, Suit};
use crate::errors::{
    GameStartError,
    GameStartErrorKind,
    JoinGameError,
    JoinGameErrorKind,
    LeaveGameError,
    LeaveGameErrorKind,
};

verus! {

/// Small blind of a new game.
pub const DEFAULT_SMALL_BLIND: u64 = 1;

/// Big blind of a new game.
pub const DEFAULT_BIG_BLIND: u64 = 2;

/// Stack a new player starts with.
pub const DEFAULT_STARTING_STACK: u64 = 250;

/// Most players that one table seats.
pub const MAX_PLAYERS: usize = 8;

/// The bits of a version-4 UUID that are fixed: version and variant.
pub const UUID_V4_MASK: u128 = 0xF000_C000_0000_0000_0000;

/// What the fixed bits of a version-4 UUID hold.
pub const UUID_V4_BITS: u128 = 0x4000_8000_0000_0000_0000;

/// Relies on uuid::Uuid::new_v4, read back through Uuid::as_u128: a random
/// UUID whose version nibble is 4 and whose variant bits are 10.
#[verifier::external_body]
fn random_uuid_bits() -> (r: u128)
    ensures
        r & UUID_V4_MASK == UUID_V4_BITS,
{
    uuid::Uuid::new_v4().as_u128()
}

/// The identity of a player: the 128 bits of a UUID, read big-endian.
#[derive(Debug, Clone, Copy, PartialEq, Eq, Structural, Hash)]
pub struct PlayerId {
    pub bits: u128,
}

impl PlayerId {
    /// The identity with the given bits.
    pub fn from_u128(bits: u128) -> (r: PlayerId)
        ensures
            r.bits == bits,
    {
        PlayerId { bits }
    }

    /// The bits of this identity.
    pub fn as_u128(&self) -> (r: u128)
        ensures
            r == self.bits,
    {
        self.bits
    }

    /// A fresh random version-4 identity.
    pub fn random() -> (r: PlayerId)
        ensures
            r.bits & UUID_V4_MASK == UUID_V4_BITS,
    {
        PlayerId { bits: random_uuid_bits() }
    }
}

/// What a player is, as a mathematical value.
pub struct PlayerView {
    pub id: PlayerId,
    pub name: Seq<char>,
    pub chips: u64,
    pub bet: u64,
    pub has_folded: bool,
    pub is_sitting_out: bool,
    pub hand: Seq<Card>,
}

/// The placeholder hand that a player holds until cards are dealt.
pub open spec fn placeholder_hand() -> Seq<Card> {
    seq![Card { value: 14, suit: Suit::Spades }, Card { value: 14, suit: Suit::Clubs }]
}

/// A player who has just joined under `name` with identity `id`: the default
/// stack, no bet, not folded, sitting out, and the placeholder hand.
pub open spec fn new_player_view(name: Seq<char>, id: PlayerId) -> PlayerView {
    PlayerView {
        id,
        name,
        chips: DEFAULT_STARTING_STACK,
        bet: 0,
        has_folded: false,
        is_sitting_out: true,
        hand: placeholder_hand(),
    }
}

/// A single player seated in a game of Texas Hold'em.
pub struct Player {
    name: String,
    id: PlayerId,
    chips: u64,
    bet: u64,
    has_folded: bool,
    is_sitting_out: bool,
    hand: [Card; 2],
}

impl View for Player {
    type V = PlayerView;

    closed spec fn view(&self) -> PlayerView {
        PlayerView {
            id: self.id,
            name: self.name@,
            chips: self.chips,
            bet: self.bet,
            has_folded: self.has_folded,
            is_sitting_out: self.is_sitting_out,
            hand: self.hand@,
        }
    }
}

impl Player {
    /// A new player with the given name and identity.
    pub fn with_id(name: String, id: PlayerId) -> (p: Player)
        ensures
            p@ == new_player_view(name@, id),
    {
        let p = Player {
            name,
            id,
            chips: DEFAULT_STARTING_STACK,
            bet: 0,
            has_folded: false,
            is_sitting_out: true,
            hand: [Card::new(14, Suit::Spades), Card::new(14, Suit::Clubs)],
        };
        assert(p@.hand =~= placeholder_hand());
        p
    }

    /// A new player with the given name and a fresh random identity.
    pub fn new(name: String) -> (p: Player)
        ensures
            p@ == new_player_view(name@, p@.id),
            p@.id.bits & UUID_V4_MASK == UUID_V4_BITS,
    {
        Player::with_id(name, PlayerId::random())
    }

    /// The identity of this player.
    pub fn id(&self) -> (r: PlayerId)
        ensures
            r == self@.id,
    {
        self.id
    }

    /// The display name of this player.
    pub fn name(&self) -> (r: &str)
        ensures
            r@ == self@.name,
    {
        self.name.as_str()
    }

    /// The chips in this player's stack.
    pub fn chips(&self) -> (r: u64)
        ensures
            r == self@.chips,
    {
        self.chips
    }

    /// What this player has committed in the current round.
    pub fn bet(&self) -> (r: u64)
        ensures
            r == self@.bet,
    {
        self.bet
    }

    /// Whether this player has folded the current hand.
    pub fn has_folded(&self) -> (r: bool)
        ensures
            r == self@.has_folded,
    {
        self.has_folded
    }

    /// Whether this player sits out of the current hand.
    pub fn is_sitting_out(&self) -> (r: bool)
        ensures
            r == self@.is_sitting_out,
    {
        self.is_sitting_out
    }

    /// The two cards this player holds.
    pub fn hand(&self) -> (r: [Card; 2])
        ensures
            r@ == self@.hand,
    {
        self.hand
    }
}

/// The phases of a hand, in the order a game moves through them.
#[derive(Debug, Clone, Copy, PartialEq, Eq, Structural)]
pub enum GameState {
    Waiting,
    PreFlop,
    Flop,
    Turn,
    River,
    Showdown,
}

/// What a game is, as a mathematical value.
pub struct GameView {
    pub players: Seq<PlayerView>,
    pub state: GameState,
    pub button_index: nat,
    pub turn_index: nat,
    pub small_blind: u64,
    pub big_blind: u64,
    pub pot: u64,
}

/// Where a seat index moves when the player at `removed` leaves and `len`
/// players remain: it follows the player it pointed to, passes to the next
/// seat (wrapping to seat 0) when that player is the one who left, and is 0
/// at an empty table.
pub open spec fn reseat_index(k: nat, removed: nat, len: nat) -> nat {
    if len == 0 {
        0
    } else if removed < k {
        (k - 1) as nat
    } else if k < len {
        k
    } else {
        0
    }
}

impl GameView {
    /// A player with identity `id` sits at the table.
    pub open spec fn has_id(self, id: PlayerId) -> bool {
        exists|i: int| 0 <= i < self.players.len() && #[trigger] self.players[i].id == id
    }

    /// The seat of the player with identity `id`.
    pub open spec fn seat_of(self, id: PlayerId) -> int {
        choose|i: int| 0 <= i < self.players.len() && #[trigger] self.players[i].id == id
    }

    /// At most eight players, no two with one identity, and seat indices that
    /// point at a player (or are 0 at an empty table).
    pub open spec fn wf(self) -> bool {
        &&& self.players.len() <= MAX_PLAYERS
        &&& forall|i: int, j: int|
            0 <= i < self.players.len() && 0 <= j < self.players.len() && i != j
                ==> #[trigger] self.players[i].id != #[trigger] self.players[j].id
        &&& (self.button_index == 0 || self.button_index < self.players.len())
        &&& (self.turn_index == 0 || self.turn_index < self.players.len())
    }

    /// This game with its players replaced.
    pub open spec fn with_players(self, players: Seq<PlayerView>) -> GameView {
        GameView { players, ..self }
    }

    /// This game with its phase replaced.
    pub open spec fn with_state(self, state: GameState) -> GameView {
        GameView { state, ..self }
    }

    /// This game after the player at seat `i` has left.
    pub open spec fn without_seat(self, i: int) -> GameView {
        let len = (self.players.len() - 1) as nat;
        GameView {
            players: self.players.remove(i),
            button_index: reseat_index(self.button_index, i as nat, len),
            turn_index: reseat_index(self.turn_index, i as nat, len),
            ..self
        }
    }
}

/// A new game: no players, waiting, button and action on seat 0, an empty pot
/// and the default blinds.
pub open spec fn empty_game() -> GameView {
    GameView {
        players: Seq::empty(),
        state: GameState::Waiting,
        button_index: 0,
        turn_index: 0,
        small_blind: DEFAULT_SMALL_BLIND,
        big_blind: DEFAULT_BIG_BLIND,
        pot: 0,
    }
}

/// What joining under `name` does: a full table refuses with `GameFull` and
/// stays as it is; otherwise a player with an identity that no one at the table
/// has is seated last, and that identity is returned.
pub open spec fn add_player_outcome(
    pre: GameView,
    name: Seq<char>,
    post: GameView,
    r: Result<PlayerId, JoinGameError>,
) -> bool {
    if pre.players.len() >= MAX_PLAYERS {
        &&& r == Err::<PlayerId, JoinGameError>(JoinGameError { kind: JoinGameErrorKind::GameFull })
        &&& post == pre
    } else {
        &&& r is Ok
        &&& !pre.has_id(r->Ok_0)
        &&& post == pre.with_players(pre.players.push(new_player_view(name, r->Ok_0)))
    }
}

/// What removing `id` does: when no one has that identity it fails with
/// `PlayerNotFound(id)` and the game stays as it is; otherwise that player
/// leaves, the others keep their order, and the seat indices are reseated.
pub open spec fn remove_player_outcome(
    pre: GameView,
    id: PlayerId,
    post: GameView,
    r: Result<(), LeaveGameError>,
) -> bool {
    if !pre.has_id(id) {
        &&& r == Err::<(), LeaveGameError>(
            LeaveGameError { kind: LeaveGameErrorKind::PlayerNotFound(id) },
        )
        &&& post == pre
    } else {
        &&& r == Ok::<(), LeaveGameError>(())
        &&& post == pre.without_seat(pre.seat_of(id))
    }
}

/// What starting does: outside `Waiting` it fails with `GameInProgress`; while
/// waiting with fewer than two players it fails with `InsufficientPlayers`;
/// either way nothing changes. Otherwise the game moves to `PreFlop`.
pub open spec fn start_outcome(pre: GameView, post: GameView, r: Result<(), GameStartError>) -> bool {
    if pre.state != GameState::Waiting {
        &&& r == Err::<(), GameStartError>(
            GameStartError { kind: GameStartErrorKind::GameInProgress },
        )
        &&& post == pre
    } else if pre.players.len() <= 1 {
        &&& r == Err::<(), GameStartError>(
            GameStartError { kind: GameStartErrorKind::InsufficientPlayers },
        )
        &&& post == pre
    } else {
        &&& r == Ok::<(), GameStartError>(())
        &&& post == pre.with_state(GameState::PreFlop)
    }
}

/// A whole game of Texas Hold'em: the players in join order and the phase.
pub struct Game {
    players: Vec<Player>,
    state: GameState,
    button_index: usize,
    turn_index: usize,
    small_blind: u64,
    big_blind: u64,
    pot: u64,
}

impl View for Game {
    type V = GameView;

    closed spec fn view(&self) -> GameView {
        GameView {
            players: self.players@.map_values(|p: Player| p@),
            state: self.state,
            button_index: self.button_index as nat,
            turn_index: self.turn_index as nat,
            small_blind: self.small_blind,
            big_blind: self.big_blind,
            pot: self.pot,
        }
    }
}

/// Starting at `v`, the first value held by no player at the table, looking at
/// most `fuel` values further.
pub open spec fn first_free_from(g: GameView, v: int, fuel: nat) -> int
    decreases fuel,
{
    if fuel == 0 || !g.has_id(PlayerId { bits: v as u128 }) {
        v
    } else {
        first_free_from(g, v + 1, (fuel - 1) as nat)
    }
}

/// Where the search for a free identity begins: the drawn bits, moved down so
/// that eight values above them still fit in 128 bits.
pub open spec fn probe_start(bits: u128) -> int {
    if bits > u128::MAX - 8 {
        u128::MAX - 8
    } else {
        bits as int
    }
}

/// The identity given to a player who joins after `candidate` was drawn: the
/// candidate itself when no one holds it, else the first free value from
/// `probe_start(candidate)` upwards.
pub open spec fn free_id(g: GameView, candidate: PlayerId) -> PlayerId {
    if !g.has_id(candidate) {
        candidate
    } else {
        PlayerId { bits: first_free_from(g, probe_start(candidate.bits), 8) as u128 }
    }
}

/// Moves seat index `k` after the player at `removed` has left `len` others.
fn reseat(k: usize, removed: usize, len: usize) -> (r: usize)
    ensures
        r == reseat_index(k as nat, removed as nat, len as nat),
{
    if len == 0 {
        0
    } else if removed < k {
        k - 1
    } else if k < len {
        k
    } else {
        0
    }
}

impl Game {
    /// The invariant of a game, stated over its view.
    pub open spec fn wf(&self) -> bool {
        self@.wf()
    }

    /// A new, empty game.
    pub fn new() -> (g: Game)
        ensures
            g@ == empty_game(),
            g.wf(),
    {
        let g = Game {
            players: Vec::new(),
            state: GameState::Waiting,
            button_index: 0,
            turn_index: 0,
            small_blind: DEFAULT_SMALL_BLIND,
            big_blind: DEFAULT_BIG_BLIND,
            pot: 0,
        };
        assert(g@.players =~= Seq::<PlayerView>::empty());
        g
    }

    /// Starts the game. Fails unless the game is waiting with at least two
    /// players.
    pub fn start(&mut self) -> (r: Result<(), GameStartError>)
        requires
            old(self).wf(),
        ensures
            final(self).wf(),
            start_outcome(old(self)@, final(self)@, r),
    {
        match self.state {
            GameState::Waiting => {
                if self.players.len() > 1 {
                    self.state = GameState::PreFlop;
                    Ok(())
                } else {
                    Err(GameStartError { kind: GameStartErrorKind::InsufficientPlayers })
                }
            },
            _ => Err(GameStartError { kind: GameStartErrorKind::GameInProgress }),
        }
    }
}

impl Game {
    /// The seat of the player with identity `id`, if any.
    fn position_of(&self, id: PlayerId) -> (r: Option<usize>)
        ensures
            match r {
                Some(i) => i < self@.players.len() && self@.players[i as int].id == id,
                None => !self@.has_id(id),
            },
    {
        let mut i: usize = 0;
        while i < self.players.len()
            invariant
                i <= self.players@.len(),
                forall|k: int| 0 <= k < i ==> #[trigger] self@.players[k].id != id,
            decreases self.players@.len() - i,
        {
            if self.players[i].id == id {
                return Some(i);
            }
            i += 1;
        }
        None
    }

    /// Whether a player with identity `id` sits at the table.
    pub fn has_player(&self, id: PlayerId) -> (r: bool)
        ensures
            r == self@.has_id(id),
    {
        match self.position_of(id) {
            Some(_) => true,
            None => false,
        }
    }

    /// An identity that no player at the table holds, chosen from `candidate`.
    fn free_id_from(&self, candidate: PlayerId) -> (r: PlayerId)
        requires
            self.wf(),
            self@.players.len() < MAX_PLAYERS,
        ensures
            r == free_id(self@, candidate),
            !self@.has_id(r),
    {
        if !self.has_player(candidate) {
            return candidate;
        }
        let start: u128 = if candidate.bits > u128::MAX - 8 {
            u128::MAX - 8
        } else {
            candidate.bits
        };
        let ghost g = self@;
        let ghost held = g.players.map_values(|p: PlayerView| p.id.bits as int).to_set();
        proof {
            g.players.map_values(|p: PlayerView| p.id.bits as int).lemma_cardinality_of_set();
        }
        let mut v: u128 = start;
        let mut taken = self.has_player(PlayerId { bits: v });
        while taken
            invariant
                taken == g.has_id(PlayerId { bits: v }),
                g == self@,
                g.wf(),
                g.players.len() < MAX_PLAYERS,
                held == g.players.map_values(|p: PlayerView| p.id.bits as int).to_set(),
                held.finite(),
                held.len() <= g.players.len(),
                start == probe_start(candidate.bits),
                start <= v <= start + 7,
                forall|x: int| start <= x < v ==> #[trigger] g.has_id(PlayerId { bits: x as u128 }),
                first_free_from(g, v as int, (8 - (v - start)) as nat) == first_free_from(
                    g,
                    start as int,
                    8,
                ),
            decreases start + 8 - v,
        {
            proof {
                let range = set_int_range(start as int, v + 1);
                assert forall|x: int| range.contains(x) implies held.contains(x) by {
                    let id = PlayerId { bits: x as u128 };
                    assert(g.has_id(id));
                    let i = choose|i: int| 0 <= i < g.players.len() && #[trigger] g.players[i].id == id;
                    assert(g.players.map_values(|p: PlayerView| p.id.bits as int)[i] == x);
                }
                lemma_int_range(start as int, v + 1);
                lemma_len_subset(range, held);
            }
            v = v + 1;
            taken = self.has_player(PlayerId { bits: v });
        }
        PlayerId { bits: v }
    }

    /// Seats a new player named `name` last, with identity
    /// `free_id(self@, candidate)`. Fails with `GameFull` when eight players
    /// already sit at the table.
    pub fn add_player_with_candidate(&mut self, name: String, candidate: PlayerId) -> (r: Result<
        PlayerId,
        JoinGameError,
    >)
        requires
            old(self).wf(),
        ensures
            final(self).wf(),
            add_player_outcome(old(self)@, name@, final(self)@, r),
            r is Ok ==> r->Ok_0 == free_id(old(self)@, candidate),
    {
        if self.players.len() < MAX_PLAYERS {
            let ghost n = name@;
            let id = self.free_id_from(candidate);
            self.players.push(Player::with_id(name, id));
            assert(self@.players =~= old(self)@.players.push(new_player_view(n, id)));
            Ok(id)
        } else {
            Err(JoinGameError { kind: JoinGameErrorKind::GameFull })
        }
    }

    /// Seats a new player named `name` last, with an identity that no one at
    /// the table holds, and returns that identity. Fails with `GameFull` when
    /// eight players already sit at the table.
    pub fn add_player(&mut self, name: String) -> (r: Result<PlayerId, JoinGameError>)
        requires
            old(self).wf(),
        ensures
            final(self).wf(),
            add_player_outcome(old(self)@, name@, final(self)@, r),
    {
        if self.players.len() >= MAX_PLAYERS {
            return Err(JoinGameError { kind: JoinGameErrorKind::GameFull });
        }
        let candidate = PlayerId::random();
        self.add_player_with_candidate(name, candidate)
    }

    /// Removes the player with identity `id`, keeping the order of the others
    /// and moving the button and the action with the players they point at.
    /// Fails with `PlayerNotFound(id)` when no such player sits at the table.
    pub fn remove_player(&mut self, id: PlayerId) -> (r: Result<(), LeaveGameError>)
        requires
            old(self).wf(),
        ensures
            final(self).wf(),
            remove_player_outcome(old(self)@, id, final(self)@, r),
    {
        match self.position_of(id) {
            None => Err(LeaveGameError { kind: LeaveGameErrorKind::PlayerNotFound(id) }),
            Some(i) => {
                let ghost pre = self@;
                proof {
                    let j = pre.seat_of(id);
                    assert(pre.players[i as int].id == id);
                    assert(pre.players[j].id == id);
                    assert(j == i);
                }
                self.players.remove(i);
                let len = self.players.len();
                self.button_index = reseat(self.button_index, i, len);
                self.turn_index = reseat(self.turn_index, i, len);
                assert(self@.players =~= pre.players.remove(i as int));
                Ok(())
            }
        }
    }
}

impl Game {
    /// How many players sit at the table.
    pub fn num_players(&self) -> (r: usize)
        ensures
            r == self@.players.len(),
    {
        self.players.len()
    }

    /// The player at seat `i`, in join order.
    pub fn player(&self, i: usize) -> (r: &Player)
        requires
            i < self@.players.len(),
        ensures
            r@ == self@.players[i as int],
    {
        &self.players[i]
    }

    /// The phase the game is in.
    pub fn state(&self) -> (r: GameState)
        ensures
            r == self@.state,
    {
        self.state
    }

    /// The seat of the dealer button.
    pub fn button_index(&self) -> (r: usize)
        ensures
            r == self@.button_index,
    {
        self.button_index
    }

    /// The seat whose turn it is to act.
    pub fn turn_index(&self) -> (r: usize)
        ensures
            r == self@.turn_index,
    {
        self.turn_index
    }

    /// The small blind.
    pub fn small_blind(&self) -> (r: u64)
        ensures
            r == self@.small_blind,
    {
        self.small_blind
    }

    /// The big blind.
    pub fn big_blind(&self) -> (r: u64)
        ensures
            r == self@.big_blind,
    {
        self.big_blind
    }

    /// The chips in the pot.
    pub fn pot(&self) -> (r: u64)
        ensures
            r == self@.pot,
    {
        self.pot
    }
}

} // verus!
