//! The game's phase and player bookkeeping: which phase the game is in and
//! how its clock runs, the configured times and player counts, when a game
//! is over, what becomes of a request to place a piece, and players' money.
use vstd::prelude::*;
use crate::comms::Stage;
use crate::types::{PieceType, price_of, is_user_placeable};
use crate::protocol::Error;
use crate::protocol::wire::{le2, from_le2, lemma_le2_roundtrip};
use crate::protocol::serializer::{LengthGrabber, Serializer};
use crate::protocol::deserializer::Deserializer;
use crate::protocol::values::{enc, enc_all, Value};
use crate::protocol::frames::{ProtocolSerialize, ProtocolDeserialize, ProtocolFrame};

verus! {

/// The state of the game as a whole.
pub struct GameState {
    pub playing: bool,
    pub io: bool,
    pub strategy: bool,
    pub tick: u16,
    pub time_in_stage: u16,
    /// The number of players connected.
    pub currently_attached_players: u16,
    /// The number of players with territory.
    pub currently_playing: u16,
}

/// The phase shown for a game: waiting when not playing, moving ships in the
/// strategy part of play, playing otherwise.
pub open spec fn stage_of(playing: bool, strategy: bool) -> Stage {
    if playing {
        if strategy {
            Stage::MoveShips
        } else {
            Stage::Playing
        }
    } else {
        Stage::Waiting
    }
}

impl GameState {
    /// The physics and the play systems run only while a game is played
    /// outside its strategy part.
    pub fn runs_play_schedule(&self) -> (r: bool)
        ensures
            r == (self.playing && !self.strategy),
    {
        self.playing && !self.strategy
    }

    pub fn get_state_enum(&self) -> (r: Stage)
        ensures
            r == stage_of(self.playing, self.strategy),
    {
        if self.playing {
            if self.strategy {
                Stage::MoveShips
            } else {
                Stage::Playing
            }
        } else {
            Stage::Waiting
        }
    }
}

/// How long each phase lasts, in ticks.
#[derive(Copy, Clone, Debug, PartialEq, Eq, Structural)]
pub struct TimesConfig {
    pub wait_period: u16,
    pub strategy_period: u16,
    pub play_period: u16,
}

/// How many players a game needs and admits.
#[derive(Copy, Clone, Debug, PartialEq, Eq, Structural)]
pub struct PlayerCountConfig {
    pub min_players: u16,
    pub max_players: u16,
}

impl View for TimesConfig {
    type V = TimesConfig;

    open spec fn view(&self) -> TimesConfig {
        *self
    }
}

impl View for PlayerCountConfig {
    type V = PlayerCountConfig;

    open spec fn view(&self) -> PlayerCountConfig {
        *self
    }
}

impl ProtocolSerialize for TimesConfig {
    /// A struct carries no framing: its fields in order.
    open spec fn spec_encode(v: TimesConfig) -> Seq<u8> {
        le2(v.wait_period) + le2(v.strategy_period) + le2(v.play_period)
    }

    fn get_encoded_size(&self) -> (r: Result<usize, Error>) {
        let mut grabber = LengthGrabber::new();
        grabber.serialize_struct()?;
        grabber.serialize_u16()?;
        grabber.serialize_u16()?;
        grabber.serialize_u16()?;
        Ok(grabber.len)
    }

    fn encode(&self) -> (r: Result<Vec<u8>, Error>) {
        let len = self.get_encoded_size()?;
        let mut serializer = Serializer::with_capacity(len);
        serializer.serialize_struct()?;
        serializer.serialize_u16(self.wait_period)?;
        serializer.serialize_u16(self.strategy_period)?;
        serializer.serialize_u16(self.play_period)?;
        Ok(serializer.buffer)
    }
}

impl ProtocolDeserialize for TimesConfig {
    open spec fn decode_requires(buf: Seq<u8>) -> bool {
        buf.len() >= 6
    }

    open spec fn spec_decode(buf: Seq<u8>) -> Result<TimesConfig, Error> {
        Ok(
            TimesConfig {
                wait_period: from_le2(buf),
                strategy_period: from_le2(buf.skip(2)),
                play_period: from_le2(buf.skip(4)),
            },
        )
    }

    fn decode(buf: &[u8]) -> (r: Result<TimesConfig, Error>) {
        let mut d = Deserializer::new(buf);
        assert(d.rest() =~= buf@);
        let wait_period = d.deserialize_u16();
        assert(d.rest() =~= buf@.skip(2));
        let strategy_period = d.deserialize_u16();
        assert(d.rest() =~= buf@.skip(4));
        let play_period = d.deserialize_u16();
        Ok(TimesConfig { wait_period, strategy_period, play_period })
    }
}

impl ProtocolSerialize for PlayerCountConfig {
    /// A struct carries no framing: its fields in order.
    open spec fn spec_encode(v: PlayerCountConfig) -> Seq<u8> {
        le2(v.min_players) + le2(v.max_players)
    }

    fn get_encoded_size(&self) -> (r: Result<usize, Error>) {
        let mut grabber = LengthGrabber::new();
        grabber.serialize_struct()?;
        grabber.serialize_u16()?;
        grabber.serialize_u16()?;
        Ok(grabber.len)
    }

    fn encode(&self) -> (r: Result<Vec<u8>, Error>) {
        let len = self.get_encoded_size()?;
        let mut serializer = Serializer::with_capacity(len);
        serializer.serialize_struct()?;
        serializer.serialize_u16(self.min_players)?;
        serializer.serialize_u16(self.max_players)?;
        Ok(serializer.buffer)
    }
}

impl ProtocolDeserialize for PlayerCountConfig {
    open spec fn decode_requires(buf: Seq<u8>) -> bool {
        buf.len() >= 4
    }

    open spec fn spec_decode(buf: Seq<u8>) -> Result<PlayerCountConfig, Error> {
        Ok(PlayerCountConfig { min_players: from_le2(buf), max_players: from_le2(buf.skip(2)) })
    }

    fn decode(buf: &[u8]) -> (r: Result<PlayerCountConfig, Error>) {
        let mut d = Deserializer::new(buf);
        assert(d.rest() =~= buf@);
        let min_players = d.deserialize_u16();
        assert(d.rest() =~= buf@.skip(2));
        let max_players = d.deserialize_u16();
        Ok(PlayerCountConfig { min_players, max_players })
    }
}

/// Decoding the frame of a configuration gives back the configuration.
pub proof fn law_config_frames_roundtrip(t: TimesConfig, p: PlayerCountConfig)
    ensures
        TimesConfig::decode_requires(TimesConfig::spec_encode(t)),
        TimesConfig::spec_decode(TimesConfig::spec_encode(t)) == Ok::<TimesConfig, Error>(t),
        PlayerCountConfig::decode_requires(PlayerCountConfig::spec_encode(p)),
        PlayerCountConfig::spec_decode(PlayerCountConfig::spec_encode(p)) == Ok::<
            PlayerCountConfig,
            Error,
        >(p),
{
    lemma_le2_roundtrip(t.wait_period);
    lemma_le2_roundtrip(t.strategy_period);
    lemma_le2_roundtrip(t.play_period);
    lemma_le2_roundtrip(p.min_players);
    lemma_le2_roundtrip(p.max_players);
    let tf = TimesConfig::spec_encode(t);
    assert(tf.skip(2) =~= le2(t.strategy_period) + le2(t.play_period));
    assert(tf.skip(4) =~= le2(t.play_period));
    assert(from_le2(tf) == from_le2(le2(t.wait_period)));
    assert(from_le2(tf.skip(2)) == from_le2(le2(t.strategy_period)));
    let pf = PlayerCountConfig::spec_encode(p);
    assert(pf.skip(2) =~= le2(p.max_players));
    assert(from_le2(pf) == from_le2(le2(p.min_players)));
}

impl ProtocolFrame for TimesConfig {
    open spec fn fits(v: TimesConfig) -> bool {
        true
    }

    proof fn lemma_roundtrip(v: TimesConfig) {
        law_config_frames_roundtrip(v, PlayerCountConfig { min_players: 0, max_players: 0 });
    }
}

impl ProtocolFrame for PlayerCountConfig {
    open spec fn fits(v: PlayerCountConfig) -> bool {
        true
    }

    proof fn lemma_roundtrip(v: PlayerCountConfig) {
        law_config_frames_roundtrip(TimesConfig { wait_period: 0, strategy_period: 0, play_period: 0 }, v);
    }
}

/// The configuration frames are laid out as structs of their 16-bit fields.
pub proof fn law_config_frames_follow_the_layout(t: TimesConfig, p: PlayerCountConfig)
    ensures
        TimesConfig::spec_encode(t) == enc(
            Value::Tuple(
                seq![
                    Value::U16(t.wait_period),
                    Value::U16(t.strategy_period),
                    Value::U16(t.play_period),
                ],
            ),
        ),
        PlayerCountConfig::spec_encode(p) == enc(
            Value::Tuple(seq![Value::U16(p.min_players), Value::U16(p.max_players)]),
        ),
{
    let tv = seq![Value::U16(t.wait_period), Value::U16(t.strategy_period), Value::U16(t.play_period)];
    let t2 = tv.subrange(1, 3);
    let t3 = t2.subrange(1, 2);
    assert(t2 =~= seq![Value::U16(t.strategy_period), Value::U16(t.play_period)]);
    assert(t3 =~= seq![Value::U16(t.play_period)]);
    assert(t3.subrange(1, 1) =~= Seq::<Value>::empty());
    assert(enc_all(t3.subrange(1, 1)) =~= Seq::<u8>::empty());
    assert(enc(t3[0]) == le2(t.play_period));
    assert(enc_all(t3) =~= le2(t.play_period));
    assert(enc(t2[0]) == le2(t.strategy_period));
    assert(enc_all(t2) =~= le2(t.strategy_period) + le2(t.play_period));
    assert(enc(tv[0]) == le2(t.wait_period));
    assert(enc_all(tv) == enc(tv[0]) + enc_all(t2));
    assert(enc_all(tv) =~= TimesConfig::spec_encode(t));
    let pv = seq![Value::U16(p.min_players), Value::U16(p.max_players)];
    let p2 = pv.subrange(1, 2);
    assert(p2 =~= seq![Value::U16(p.max_players)]);
    assert(p2.subrange(1, 1) =~= Seq::<Value>::empty());
    assert(enc_all(p2.subrange(1, 1)) =~= Seq::<u8>::empty());
    assert(enc(p2[0]) == le2(p.max_players));
    assert(enc_all(p2) =~= le2(p.max_players));
    assert(enc(pv[0]) == le2(p.min_players));
    assert(enc_all(pv) == enc(pv[0]) + enc_all(p2));
    assert(enc_all(pv) =~= PlayerCountConfig::spec_encode(p));
}

/// Who won, when a game ends.
#[derive(Copy, Clone, Debug, PartialEq, Eq, Structural)]
pub enum Verdict {
    /// The one player still playing won.
    SoleSurvivor,
    /// The team in this slot won.
    TeamWin(u8),
    /// Nobody won: announced as a win of the system player (id 0).
    Tie,
}

/// What the end-of-game check decided.
#[derive(Copy, Clone, Debug, PartialEq, Eq, Structural)]
pub struct WinCheck {
    /// The game ended: everyone is told to disconnect.
    pub game_over: bool,
    /// Who is announced as the winner, when the game ended.
    pub verdict: Option<Verdict>,
}

/// Scanning the slots of the players still playing, in order: the last team
/// slot seen (slots from 2 up are teams; 1 is a free agent) and whether there
/// is variety, that is a free agent, or a slot different from a team slot
/// seen before it.
pub open spec fn slot_scan(slots: Seq<u8>) -> (Option<u8>, bool)
    decreases slots.len(),
{
    if slots.len() == 0 {
        (None, false)
    } else {
        let (last, variety) = slot_scan(slots.drop_last());
        let x = slots.last();
        let variety2 = variety || (last is Some && last->Some_0 != x) || x == 1;
        let last2 = if x == 1 {
            last
        } else if x > 1 {
            Some(x)
        } else {
            last
        };
        (last2, variety2)
    }
}

/// The state of a game that was stopped: waiting again, with the wait period
/// to run.
pub open spec fn stopped(s: GameState, wait_period: u16) -> GameState {
    GameState { playing: false, strategy: false, tick: 0, time_in_stage: wait_period, ..s }
}

/// After a player lost: in a normal (not io) game, the game ends when it is
/// being played and fewer than two players are left or they are all one team;
/// a sole player left wins, else the last team seen wins, else it is a tie.
/// The game also stops when fewer players than the minimum are left. An io
/// game never ends this way.
pub fn client_win_checks(state: &mut GameState, slots: &[u8], min_players: u16, wait_period: u16) -> (r: WinCheck)
    ensures
        ({
            let (last, variety) = slot_scan(slots@);
            let n = slots@.len();
            let over = !old(state).io && old(state).playing && (n < 2 || !variety);
            &&& r.game_over == over
            &&& over ==> r.verdict == if n == 1 {
                Some(Verdict::SoleSurvivor)
            } else if last is Some {
                Some(Verdict::TeamWin(last->Some_0))
            } else {
                Some(Verdict::Tie)
            }
            &&& !over ==> r.verdict is None
            &&& *final(state) == if !old(state).io && (over || n < min_players) {
                stopped(*old(state), wait_period)
            } else {
                *old(state)
            }
        }),
{
    if state.io {
        return WinCheck { game_over: false, verdict: None };
    }
    let mut last_slot: Option<u8> = None;
    let mut is_team_variety = false;
    let mut currently_playing: usize = 0;
    let mut i: usize = 0;
    while i < slots.len()
        invariant
            0 <= i <= slots@.len(),
            currently_playing == i,
            (last_slot, is_team_variety) == slot_scan(slots@.take(i as int)),
        decreases slots@.len() - i,
    {
        let slot = slots[i];
        proof {
            assert(slots@.take(i + 1).drop_last() =~= slots@.take(i as int));
        }
        currently_playing += 1;
        if let Some(s) = last_slot {
            if s != slot {
                is_team_variety = true;
            }
        }
        if slot == 1 {
            is_team_variety = true;
        } else if slot > 1 {
            last_slot = Some(slot);
        }
        i = i + 1;
    }
    assert(slots@.take(slots@.len() as int) =~= slots@);
    let mut result = WinCheck { game_over: false, verdict: None };
    if state.playing && (currently_playing < 2 || !is_team_variety) {
        if currently_playing == 1 {
            result.verdict = Some(Verdict::SoleSurvivor);
        } else if let Some(slot) = last_slot {
            result.verdict = Some(Verdict::TeamWin(slot));
        } else {
            result.verdict = Some(Verdict::Tie);
        }
        result.game_over = true;
        state.playing = false;
        state.strategy = false;
        state.tick = 0;
        state.time_in_stage = wait_period;
    }
    if currently_playing < min_players as usize {
        state.playing = false;
        state.tick = 0;
        state.time_in_stage = wait_period;
        state.strategy = false;
    }
    result
}

/// What every client is told each frame: the phase, the tick within it and
/// how long the phase lasts.
#[derive(Copy, Clone, Debug, PartialEq, Eq, Structural)]
pub struct StageReport {
    pub stage: Stage,
    pub tick_in_stage: u16,
    pub stage_duration: u16,
}

/// Whether the players still playing, given by their slots, can hold a game:
/// at least the minimum number of them, with variety among their slots.
pub open spec fn can_play(slots: Seq<u8>, min_players: u16) -> bool {
    slots.len() >= min_players && slot_scan(slots).1
}

/// One frame of the phase clock. While a game is played the tick counts up
/// and, once it passes the phase's length, the phase flips between play and
/// strategy and the tick starts again. While waiting, the tick counts up as
/// long as a game could be held (and falls back to zero when not), and the
/// game starts once it passes the wait. A game that cannot be held stops.
pub open spec fn frame_step(
    s: GameState,
    slots: Seq<u8>,
    min_players: u16,
    strategy_period: u16,
    play_period: u16,
) -> GameState {
    let ok = can_play(slots, min_players);
    if s.playing && ok {
        if s.tick + 1 > s.time_in_stage {
            GameState {
                strategy: !s.strategy,
                time_in_stage: if !s.strategy { strategy_period } else { play_period },
                tick: 0,
                ..s
            }
        } else {
            GameState { tick: (s.tick + 1) as u16, ..s }
        }
    } else {
        let t: u16 = if ok { (s.tick + 1) as u16 } else { 0 };
        GameState { tick: t, playing: t > s.time_in_stage, ..s }
    }
}

/// Advance the phase clock by one frame, given the slots of the players
/// still playing, and report the phase to broadcast.
pub fn frame_broadcast(
    state: &mut GameState,
    slots: &[u8],
    min_players: u16,
    strategy_period: u16,
    play_period: u16,
) -> (r: StageReport)
    requires
        can_play(slots@, min_players) ==> old(state).tick < u16::MAX,
    ensures
        *final(state) == frame_step(*old(state), slots@, min_players, strategy_period, play_period),
        r == (StageReport {
            stage: stage_of(final(state).playing, final(state).strategy),
            tick_in_stage: final(state).tick,
            stage_duration: final(state).time_in_stage,
        }),
{
    let mut last_slot: Option<u8> = None;
    let mut is_team_variety = false;
    let mut currently_playing: usize = 0;
    let mut i: usize = 0;
    while i < slots.len()
        invariant
            0 <= i <= slots@.len(),
            currently_playing == i,
            (last_slot, is_team_variety) == slot_scan(slots@.take(i as int)),
        decreases slots@.len() - i,
    {
        let slot = slots[i];
        proof {
            assert(slots@.take(i + 1).drop_last() =~= slots@.take(i as int));
        }
        currently_playing += 1;
        if let Some(s) = last_slot {
            if s != slot {
                is_team_variety = true;
            }
        }
        if slot == 1 {
            is_team_variety = true;
        } else if slot > 1 {
            last_slot = Some(slot);
        }
        i = i + 1;
    }
    assert(slots@.take(slots@.len() as int) =~= slots@);
    if currently_playing < min_players as usize {
        state.playing = false;
    }
    if !is_team_variety {
        state.playing = false;
    }
    if state.playing {
        state.tick += 1;
        if state.tick > state.time_in_stage {
            state.strategy = !state.strategy;
            if state.strategy {
                state.time_in_stage = strategy_period;
            } else {
                state.time_in_stage = play_period;
            }
            state.tick = 0;
        }
    } else {
        if currently_playing >= min_players as usize && is_team_variety {
            state.tick += 1;
        } else {
            state.tick = 0;
        }
        if state.tick > state.time_in_stage {
            state.playing = true;
        }
    }
    StageReport {
        stage: state.get_state_enum(),
        tick_in_stage: state.tick,
        stage_duration: state.time_in_stage,
    }
}

/// The tick of a phase stays within its length: at most one past it while
/// playing (the frame the game starts on), and within it while waiting.
pub open spec fn tick_in_range(s: GameState) -> bool {
    if s.playing {
        s.tick <= s.time_in_stage + 1
    } else {
        s.tick <= s.time_in_stage
    }
}

/// The phase clock never overflows: in a game whose phases are all shorter
/// than `u16::MAX - 1` ticks, a state whose tick is in range can always take
/// another frame, and both a frame and the end-of-game check keep the tick in
/// range and the phase length short.
pub proof fn law_phase_clock_stays_in_range(
    s: GameState,
    slots: Seq<u8>,
    min_players: u16,
    strategy_period: u16,
    play_period: u16,
    wait_period: u16,
)
    requires
        tick_in_range(s),
        s.time_in_stage < u16::MAX - 1,
        strategy_period < u16::MAX - 1,
        play_period < u16::MAX - 1,
        wait_period < u16::MAX - 1,
    ensures
        s.tick < u16::MAX,
        tick_in_range(frame_step(s, slots, min_players, strategy_period, play_period)),
        frame_step(s, slots, min_players, strategy_period, play_period).time_in_stage < u16::MAX
            - 1,
        tick_in_range(stopped(s, wait_period)),
        stopped(s, wait_period).time_in_stage < u16::MAX - 1,
{
}

/// What becomes of a client's request to place a piece.
#[derive(Copy, Clone, Debug, PartialEq, Eq, Structural)]
pub enum PlaceDecision {
    /// The client tried to place a second castle: it is dropped.
    Drop,
    /// The castle goes down: the client starts playing, collects its starting
    /// money, and its starting area is placed around the castle.
    Castle,
    /// The piece is bought: the client collects this (negative) amount and
    /// the piece is placed.
    Buy(i32),
    /// Nothing happens.
    Ignore,
}

/// A castle may be placed while waiting, or at any time in an io game, once
/// per client and away from every territory. Other pieces may be bought in
/// the strategy part of play, if players may place them and the client has
/// more money than their price.
pub open spec fn place_decision(
    s: GameState,
    tp: PieceType,
    has_placed_castle: bool,
    territory_clear: bool,
    money: u32,
) -> PlaceDecision {
    if tp == PieceType::Castle {
        if !s.playing || s.io {
            if has_placed_castle {
                PlaceDecision::Drop
            } else if territory_clear {
                PlaceDecision::Castle
            } else {
                PlaceDecision::Ignore
            }
        } else {
            PlaceDecision::Ignore
        }
    } else if s.playing && s.strategy && is_user_placeable(tp) && money > price_of(tp) {
        PlaceDecision::Buy((0 - price_of(tp)) as i32)
    } else {
        PlaceDecision::Ignore
    }
}

/// Decide a client's request to place a piece of type `tp`, given whether it
/// already placed its castle, whether the spot is clear of every territory,
/// and its money. A castle that goes down counts one more player playing.
pub fn client_place(
    state: &mut GameState,
    tp: PieceType,
    has_placed_castle: bool,
    territory_clear: bool,
    money: u32,
) -> (r: PlaceDecision)
    requires
        place_decision(*old(state), tp, has_placed_castle, territory_clear, money)
            is Castle ==> old(state).currently_playing < u16::MAX,
    ensures
        r == place_decision(*old(state), tp, has_placed_castle, territory_clear, money),
        *final(state) == if r is Castle {
            GameState { currently_playing: (old(state).currently_playing + 1) as u16, ..*old(state) }
        } else {
            *old(state)
        },
{
    if let PieceType::Castle = tp {
        if !state.playing || state.io {
            if has_placed_castle {
                return PlaceDecision::Drop;
            } else if territory_clear {
                state.currently_playing += 1;
                return PlaceDecision::Castle;
            }
        }
        PlaceDecision::Ignore
    } else if state.playing && state.strategy {
        if tp.user_placeable() {
            let price = tp.price();
            if money > price {
                assert(price <= 200);
                return PlaceDecision::Buy(-1 * price as i32);
            }
        }
        PlaceDecision::Ignore
    } else {
        PlaceDecision::Ignore
    }
}

/// A player's money.
#[derive(Copy, Clone, Debug, PartialEq, Eq, Structural)]
pub struct ClientMoney {
    pub money: u32,
}

impl ClientMoney {
    /// Take `amount` if the player has that much; say whether it was taken.
    pub fn charge(&mut self, amount: u32) -> (r: bool)
        ensures
            r == (old(self).money >= amount),
            r ==> final(self).money == old(self).money - amount,
            !r ==> final(self).money == old(self).money,
    {
        if self.money >= amount {
            self.money -= amount;
            return true;
        }
        false
    }

    /// Give the player `amount`.
    pub fn collect(&mut self, amount: u32)
        requires
            old(self).money + amount <= u32::MAX,
        ensures
            final(self).money == old(self).money + amount,
    {
        self.money += amount;
    }

    /// Apply a collect event of a signed amount (negative to charge), in
    /// 32-bit two's-complement arithmetic: the balance is read as signed,
    /// the amount added, and the sum read back as unsigned.
    pub fn apply_collect_event(&mut self, amount: i32)
        requires
            i32::MIN <= (old(self).money as i32) + amount <= i32::MAX,
        ensures
            final(self).money == ((old(self).money as i32) + amount) as u32,
    {
        self.money = (self.money as i32 + amount) as u32;
    }
}

/// Some player still playing is a free agent (slot 1).
pub open spec fn has_free_agent(slots: Seq<u8>) -> bool {
    exists|k: int| 0 <= k < slots.len() && slots[k] == 1
}

/// Some player's slot differs from the team slot (2 and up) of a player
/// listed before it.
pub open spec fn team_change(slots: Seq<u8>) -> bool {
    exists|i: int, j: int| 0 <= i < j < slots.len() && slots[i] >= 2 && #[trigger] slots[j] != #[trigger] slots[i]
}

/// No player listed is in a team slot.
pub open spec fn no_team(slots: Seq<u8>) -> bool {
    forall|k: int| 0 <= k < slots.len() ==> slots[k] < 2
}

/// `l` is the team slot of the last player listed in a team slot.
pub open spec fn is_last_team(slots: Seq<u8>, l: u8) -> bool {
    l >= 2 && exists|m: int|
        0 <= m < slots.len() && slots[m] == l && forall|k: int| m < k < slots.len() ==> slots[k] < 2
}

/// What the scan over the players still playing finds: the team slot of the
/// last player in a team slot (none when no one is in a team), and variety
/// exactly when a free agent plays or some player's slot differs from a team
/// slot listed before it.
pub proof fn law_slot_scan_finds_variety(slots: Seq<u8>)
    ensures
        slot_scan(slots).1 <==> (has_free_agent(slots) || team_change(slots)),
        slot_scan(slots).0 is None <==> no_team(slots),
        slot_scan(slots).0 matches Some(l) ==> is_last_team(slots, l),
    decreases slots.len(),
{
    if slots.len() > 0 {
        let p = slots.drop_last();
        let x = slots.last();
        let n = slots.len() - 1;
        law_slot_scan_finds_variety(p);
        assert(forall|k: int| 0 <= k < n ==> slots[k] == p[k]);
        let (last, var) = slot_scan(p);
        // free agents
        if has_free_agent(p) {
            let k = choose|k: int| 0 <= k < p.len() && p[k] == 1;
            assert(slots[k] == 1);
        }
        if has_free_agent(slots) {
            let k = choose|k: int| 0 <= k < slots.len() && slots[k] == 1;
            if k < n {
                assert(p[k] == 1);
            }
        }
        // team changes
        if team_change(p) {
            let (i, j) = choose|i: int, j: int| 0 <= i < j < p.len() && p[i] >= 2 && #[trigger] p[j] != #[trigger] p[i];
            assert(slots[i] >= 2 && slots[j] != slots[i]);
        }
        if team_change(slots) {
            let (i, j) = choose|i: int, j: int|
                0 <= i < j < slots.len() && slots[i] >= 2 && #[trigger] slots[j] != #[trigger] slots[i];
            if j < n {
                assert(p[i] >= 2 && p[j] != p[i]);
                assert(team_change(p));
            } else {
                // the last player differs from an earlier team slot
                assert(!no_team(p));
                let l = last->Some_0;
                let m = choose|m: int|
                    0 <= m < p.len() && p[m] == l && forall|k: int| m < k < p.len() ==> p[k] < 2;
                if l == x {
                    assert(m >= i);
                    assert(m != i);
                    assert(p[i] >= 2 && p[m] != p[i]);
                    assert(team_change(p));
                }
            }
        }
        if let Some(l) = last {
            if l != x {
                let m = choose|m: int|
                    0 <= m < p.len() && p[m] == l && forall|k: int| m < k < p.len() ==> p[k] < 2;
                assert(slots[m] >= 2 && slots[n] != slots[m]);
                assert(team_change(slots));
            }
        }
        if x == 1 {
            assert(slots[n] == 1);
        }
        // the last team slot
        if x > 1 {
            assert(is_last_team(slots, x));
        } else {
            if let Some(l) = last {
                let m = choose|m: int|
                    0 <= m < p.len() && p[m] == l && forall|k: int| m < k < p.len() ==> p[k] < 2;
                assert(slots[m] == l && forall|k: int| m < k < slots.len() ==> slots[k] < 2);
            } else {
                assert(no_team(slots));
            }
        }
        if no_team(slots) {
            assert(x < 2);
            assert(no_team(p));
        }
    }
}

/// Two players in different team slots keep a game going, in whatever order
/// they are listed: the scan finds variety, so a game with at least two
/// players still playing in different teams is not over.
pub proof fn law_two_teams_keep_playing(slots: Seq<u8>, i: int, j: int)
    requires
        0 <= i < slots.len(),
        0 <= j < slots.len(),
        slots[i] >= 2,
        slots[j] >= 2,
        slots[i] != slots[j],
    ensures
        slot_scan(slots).1,
        !(slots.len() < 2 || !slot_scan(slots).1),
{
    law_slot_scan_finds_variety(slots);
    if i < j {
        assert(slots[i] >= 2 && slots[j] != slots[i]);
    } else {
        assert(slots[j] >= 2 && slots[i] != slots[j]);
    }
}

/// What a request to place a piece may lead to, in terms of the request:
/// only a castle can go down as a castle or be dropped, and only while
/// waiting or in an io game, once per client; a piece is bought only in the
/// strategy part of play (io or not), if players may place it and the client
/// has more money than its price, which it pays.
pub proof fn law_placement_rules(s: GameState, tp: PieceType, has_placed_castle: bool, territory_clear: bool, money: u32)
    ensures
        ({
            let d = place_decision(s, tp, has_placed_castle, territory_clear, money);
            &&& d is Castle <==> (tp == PieceType::Castle && (!s.playing || s.io) && !has_placed_castle
                && territory_clear)
            &&& d is Drop <==> (tp == PieceType::Castle && (!s.playing || s.io) && has_placed_castle)
            &&& d is Buy ==> tp != PieceType::Castle && s.playing && s.strategy && is_user_placeable(tp)
                && money > price_of(tp) && d->Buy_0 == -(price_of(tp) as int)
            &&& (tp != PieceType::Castle && s.playing && s.strategy && is_user_placeable(tp) && money
                > price_of(tp)) ==> d is Buy
            &&& !(s.playing && s.strategy) ==> !(d is Buy)
        }),
{
}

} // verus!
