//! Dedicated match server bookkeeping: command line, admissions, identity
//! allocation and the bounded event history that rides along in snapshots.
use vstd::prelude::*;
use std::collections::VecDeque;
use crate::config::{GameConfig, GameMode, MapId};
use crate::game::GameState;
use crate::matchplay::{assign_team, Team};
use crate::net::proto::{seq_add, EVENT_HISTORY, PROTOCOL_VERSION};
use crate::text::{decimal, parse_bounded, parse_unsigned, spec_decimal, str_eq};
use vstd::string::*;

verus! {

/// Index of the first argument equal to `flag`, if any.
pub open spec fn first_flag(args: Seq<Seq<char>>, flag: Seq<char>) -> Option<int> {
    if exists|i: int| 0 <= i < args.len() && args[i] == flag {
        Some(
            choose|i: int|
                0 <= i < args.len() && args[i] == flag && forall|j: int|
                    0 <= j < i ==> args[j] != flag,
        )
    } else {
        None
    }
}

/// The argument following the first occurrence of `flag`.
pub open spec fn arg_value(args: Seq<Seq<char>>, flag: Seq<char>) -> Option<Seq<char>> {
    match first_flag(args, flag) {
        Some(i) => if i + 1 < args.len() {
            Some(args[i + 1])
        } else {
            None
        },
        None => None,
    }
}

/// A flag's value parsed as an unsigned number no larger than `max`.
pub open spec fn arg_number(args: Seq<Seq<char>>, flag: Seq<char>, max: nat) -> Option<nat> {
    match arg_value(args, flag) {
        Some(v) => match parse_unsigned(v) {
            Some(n) => if n <= max {
                Some(n)
            } else {
                None
            },
            None => None,
        },
        None => None,
    }
}

pub open spec fn views(args: Seq<String>) -> Seq<Seq<char>> {
    args.map_values(|a: String| a@)
}

/// The argument that follows `flag` on the command line.
pub fn flag_value(args: &Vec<String>, flag: &str) -> (r: Option<String>)
    ensures
        match r {
            Some(v) => arg_value(views(args@), flag@) == Some(v@),
            None => arg_value(views(args@), flag@) is None,
        },
{
    let ghost a = views(args@);
    let mut i: usize = 0;
    while i < args.len()
        invariant
            i <= args@.len(),
            a == views(args@),
            a.len() == args@.len(),
            forall|j: int| 0 <= j < i ==> a[j] != flag@,
        decreases args@.len() - i,
    {
        assert(a[i as int] == args@[i as int]@);
        if str_eq(args[i].as_str(), flag) {
            proof {
                let w = choose|k: int|
                    0 <= k < a.len() && a[k] == flag@ && forall|j: int| 0 <= j < k ==> a[j] != flag@;
                assert(0 <= i < a.len() && a[i as int] == flag@);
                if w < i {
                    assert(a[w] != flag@);
                }
                if w > i {
                    assert(a[i as int] != flag@);
                }
                assert(first_flag(a, flag@) == Some(i as int));
            }
            if i + 1 < args.len() {
                assert(a[i + 1] == args@[i + 1]@);
                return Some(args[i + 1].clone());
            }
            return None;
        }
        i += 1;
    }
    assert(first_flag(a, flag@) is None);
    None
}

/// A flag's value as a number no larger than `max`.
fn flag_number(args: &Vec<String>, flag: &str, max: u64) -> (r: Option<u64>)
    ensures
        match r {
            Some(n) => arg_number(views(args@), flag@, max as nat) == Some(n as nat),
            None => arg_number(views(args@), flag@, max as nat) is None,
        },
{
    match flag_value(args, flag) {
        Some(v) => parse_bounded(v.as_str(), max),
        None => None,
    }
}

/// Settings of a dedicated match server.
pub struct ServerArgs {
    pub hub: Option<String>,
    pub server_id: String,
    pub port: u16,
    pub advertise: String,
    pub mode: GameMode,
    pub map: MapId,
    pub bots: usize,
    pub max_players: usize,
    pub key: String,
    pub time_limit_secs: u64,
    pub score_limit: u32,
}

pub open spec fn opt_view(s: Option<String>) -> Option<Seq<char>> {
    match s {
        Some(v) => Some(v@),
        None => None,
    }
}

pub open spec fn number_or(n: Option<nat>, default: nat) -> nat {
    match n {
        Some(v) => v,
        None => default,
    }
}

impl ServerArgs {
    /// Reads the command line (program name first) and the server key: `--port`,
    /// `--hub`, `--server-id`, `--advertise`, `--mode`, `--map`, `--bots`,
    /// `--max-players`, `--time-limit` and `--score-limit`, each followed by its
    /// value. Missing or unreadable values take their defaults.
    pub fn from_args(args: &Vec<String>, key: String) -> (r: ServerArgs)
        ensures
            ({
                let a = views(args@);
                let port = number_or(arg_number(a, "--port"@, 65535), 27015);
                &&& r.port as nat == port
                &&& opt_view(r.hub) == arg_value(a, "--hub"@)
                &&& r.server_id@ == (match arg_value(a, "--server-id"@) {
                    Some(v) => v,
                    None => "srv-"@ + spec_decimal(port),
                })
                &&& r.advertise@ == (match arg_value(a, "--advertise"@) {
                    Some(v) => v,
                    None => "127.0.0.1"@,
                })
                &&& r.mode == (match arg_value(a, "--mode"@) {
                    Some(v) => if exists|m: GameMode| m.spec_key() == v {
                        choose|m: GameMode| m.spec_key() == v
                    } else {
                        GameMode::Deathmatch
                    },
                    None => GameMode::Deathmatch,
                })
                &&& r.map == (match arg_value(a, "--map"@) {
                    Some(v) => if exists|m: MapId| m.spec_key() == v {
                        choose|m: MapId| m.spec_key() == v
                    } else {
                        MapId::Dust2
                    },
                    None => MapId::Dust2,
                })
                &&& r.bots as nat == number_or(arg_number(a, "--bots"@, usize::MAX as nat), 6)
                &&& r.max_players as nat == number_or(
                    arg_number(a, "--max-players"@, usize::MAX as nat),
                    12,
                )
                &&& r.key@ == key@
                &&& r.time_limit_secs as nat == number_or(
                    arg_number(a, "--time-limit"@, u64::MAX as nat),
                    600,
                )
                &&& r.score_limit as nat == number_or(
                    arg_number(a, "--score-limit"@, u32::MAX as nat),
                    40,
                )
            }),
    {
        let port: u16 = match flag_number(args, "--port", 65535) {
            Some(p) => p as u16,
            None => 27015,
        };
        let server_id = match flag_value(args, "--server-id") {
            Some(v) => v,
            None => {
                let mut s = String::from_str("srv-");
                let digits = decimal(port as u64);
                s.append(digits.as_str());
                s
            },
        };
        let advertise = match flag_value(args, "--advertise") {
            Some(v) => v,
            None => String::from_str("127.0.0.1"),
        };
        let mode = match flag_value(args, "--mode") {
            Some(v) => match GameMode::from_key(v.as_str()) {
                Some(m) => m,
                None => GameMode::Deathmatch,
            },
            None => GameMode::Deathmatch,
        };
        proof {
            if let Some(v) = arg_value(views(args@), "--mode"@) {
                if exists|m: GameMode| m.spec_key() == v {
                    let c = choose|m: GameMode| m.spec_key() == v;
                    crate::config::lemma_mode_key_injective(c, mode);
                }
            }
        }
        let map = match flag_value(args, "--map") {
            Some(v) => match MapId::from_key(v.as_str()) {
                Some(m) => m,
                None => MapId::Dust2,
            },
            None => MapId::Dust2,
        };
        proof {
            if let Some(v) = arg_value(views(args@), "--map"@) {
                if exists|m: MapId| m.spec_key() == v {
                    let c = choose|m: MapId| m.spec_key() == v;
                    crate::config::lemma_map_key_injective(c, map);
                }
            }
        }
        let bots: usize = match flag_number(args, "--bots", usize::MAX as u64) {
            Some(n) => n as usize,
            None => 6,
        };
        let max_players: usize = match flag_number(args, "--max-players", usize::MAX as u64) {
            Some(n) => n as usize,
            None => 12,
        };
        let time_limit_secs: u64 = match flag_number(args, "--time-limit", u64::MAX) {
            Some(n) => n,
            None => 600,
        };
        let score_limit: u32 = match flag_number(args, "--score-limit", u32::MAX as u64) {
            Some(n) => n as u32,
            None => 40,
        };
        ServerArgs {
            hub: flag_value(args, "--hub"),
            server_id,
            port,
            advertise,
            mode,
            map,
            bots,
            max_players,
            key,
            time_limit_secs,
            score_limit,
        }
    }
}

/// What the server does with a `Join` request.
pub enum JoinDecision {
    /// Answer with `Rejected` and this reason.
    Reject(String),
    /// The address already holds a seat; its `Welcome` is sent again.
    Refresh,
    /// Check the ticket, then seat the player.
    Admit,
}

pub open spec fn version_reason(version: u16) -> Seq<char> {
    "protocol "@ + spec_decimal(version as nat) + ", server speaks "@ + spec_decimal(
        PROTOCOL_VERSION as nat,
    )
}

/// Decides on a `Join`: a different protocol version is refused, a known address is
/// welcomed again, a full match refuses newcomers, anyone else has a ticket checked.
pub fn join_decision(version: u16, known: bool, humans: usize, max_players: usize) -> (r: JoinDecision)
    ensures
        version != PROTOCOL_VERSION ==> (r matches JoinDecision::Reject(m) && m@ == version_reason(
            version,
        )),
        version == PROTOCOL_VERSION && known ==> r is Refresh,
        version == PROTOCOL_VERSION && !known && humans >= max_players ==> (r matches JoinDecision::Reject(
            m,
        ) && m@ == "match is full"@),
        version == PROTOCOL_VERSION && !known && humans < max_players ==> r is Admit,
{
    if version != PROTOCOL_VERSION {
        let mut reason = String::from_str("protocol ");
        let v = decimal(version as u64);
        reason.append(v.as_str());
        reason.append(", server speaks ");
        let p = decimal(PROTOCOL_VERSION as u64);
        reason.append(p.as_str());
        return JoinDecision::Reject(reason);
    }
    if known {
        return JoinDecision::Refresh;
    }
    if humans >= max_players {
        return JoinDecision::Reject(String::from_str("match is full"));
    }
    JoinDecision::Admit
}

/// Without a hub the ticket is the display name: its first twenty characters.
pub fn lan_display_name(ticket: &str) -> (r: String)
    ensures
        r@ == ticket@.take(if ticket@.len() < 20 {
            ticket@.len() as int
        } else {
            20
        }),
{
    let n = ticket.unicode_len();
    let end: usize = if n < 20 {
        n
    } else {
        20
    };
    String::from_str(ticket.substring_char(0, end))
}

/// The name a joining player is shown with: the hub's display name, or the name the
/// client sent when the hub gave none.
pub fn seat_name(display: String, requested: String) -> (r: String)
    ensures
        r@ == (if display@.len() == 0 {
            requested@
        } else {
            display@
        }),
{
    if display.unicode_len() == 0 {
        requested
    } else {
        display
    }
}

/// Whether an input replaces the seat's latest one: it must not be older than the
/// last accepted sequence number, unless no input was accepted yet.
pub fn accept_input(seq: u32, last_seq: u32, has_latest: bool) -> (r: bool)
    ensures
        r == (crate::net::proto::seq_ahead(seq, last_seq) < crate::net::proto::HALF_SEQUENCE
            || !has_latest),
{
    crate::net::proto::seq_newer(seq, last_seq) || !has_latest
}

/// Server-side bookkeeping that outlives single datagrams: identity counters,
/// the tick, and the last `EVENT_HISTORY` events with the sequence number of the first.
pub struct ServerNet<E> {
    next_net_id: u32,
    next_slot: usize,
    events: VecDeque<E>,
    event_base: u32,
    tick: u32,
}

/// Events after appending one to a bounded history: the oldest ones leave so that at
/// most `EVENT_HISTORY` remain.
pub open spec fn pushed_events<E>(events: Seq<E>, event: E) -> Seq<E> {
    let all = events.push(event);
    if all.len() > EVENT_HISTORY {
        all.subrange(all.len() - EVENT_HISTORY, all.len() as int)
    } else {
        all
    }
}

/// Sequence number of the first event after an append: it advances by one per
/// event that left the history.
pub open spec fn pushed_base<E>(events: Seq<E>, base: u32) -> u32 {
    let all_len = events.len() + 1;
    if all_len > EVENT_HISTORY {
        seq_add(base, all_len - EVENT_HISTORY)
    } else {
        base
    }
}

impl<E> ServerNet<E> {
    pub closed spec fn spec_events(&self) -> Seq<E> {
        self.events@
    }

    pub closed spec fn spec_event_base(&self) -> u32 {
        self.event_base
    }

    pub closed spec fn spec_next_net_id(&self) -> u32 {
        self.next_net_id
    }

    pub closed spec fn spec_next_slot(&self) -> usize {
        self.next_slot
    }

    pub closed spec fn spec_tick(&self) -> u32 {
        self.tick
    }

    /// A fresh server: identities start at 1, slots at 0, no events.
    pub fn new() -> (r: Self)
        ensures
            r.spec_events().len() == 0,
            r.spec_event_base() == 0,
            r.spec_next_net_id() == 1,
            r.spec_next_slot() == 0,
            r.spec_tick() == 0,
    {
        ServerNet { next_net_id: 1, next_slot: 0, events: VecDeque::new(), event_base: 0, tick: 0 }
    }

    /// The history never holds more than `EVENT_HISTORY` events.
    #[verifier::type_invariant]
    closed spec fn bounded(&self) -> bool {
        self.events@.len() <= EVENT_HISTORY
    }

    /// Appends an event; beyond `EVENT_HISTORY` events the oldest leave and the base
    /// sequence number advances past them.
    pub fn push_event(&mut self, event: E)
        ensures
            final(self).spec_events() == pushed_events(old(self).spec_events(), event),
            final(self).spec_event_base() == pushed_base(
                old(self).spec_events(),
                old(self).spec_event_base(),
            ),
            final(self).spec_events().len() <= EVENT_HISTORY,
            final(self).spec_next_net_id() == old(self).spec_next_net_id(),
            final(self).spec_next_slot() == old(self).spec_next_slot(),
            final(self).spec_tick() == old(self).spec_tick(),
    {
        proof {
            use_type_invariant(&*self);
        }
        let mut events: VecDeque<E> = VecDeque::new();
        std::mem::swap(&mut events, &mut self.events);
        let mut base = self.event_base;
        let ghost all = events@.push(event);
        let ghost base0 = base;
        events.push_back(event);
        let ghost mut dropped: int = 0;
        while events.len() > EVENT_HISTORY
            invariant
                all.len() <= EVENT_HISTORY + 1,
                0 <= dropped <= 1,
                events@ == all.subrange(dropped, all.len() as int),
                base == seq_add(base0, dropped),
                dropped == 1 ==> all.len() == EVENT_HISTORY + 1,
            decreases events@.len(),
        {
            events.pop_front();
            base = base.wrapping_add(1);
            proof {
                assert(seq_add(seq_add(base0, dropped), 1) == seq_add(base0, dropped + 1));
                dropped = dropped + 1;
            }
        }
        proof {
            if all.len() <= EVENT_HISTORY {
                assert(events@ =~= all);
            }
        }
        self.events = events;
        self.event_base = base;
    }

    pub fn event_base(&self) -> (r: u32)
        ensures
            r == self.spec_event_base(),
    {
        self.event_base
    }

    pub fn events(&self) -> (r: &VecDeque<E>)
        ensures
            r@ == self.spec_events(),
            r@.len() <= EVENT_HISTORY,
    {
        proof {
            use_type_invariant(self);
        }
        &self.events
    }

    /// Hands out the next network identity.
    pub fn allocate_net_id(&mut self) -> (r: u32)
        requires
            old(self).spec_next_net_id() < u32::MAX,
        ensures
            r == old(self).spec_next_net_id(),
            final(self).spec_next_net_id() == r + 1,
            final(self).spec_next_slot() == old(self).spec_next_slot(),
            final(self).spec_events() == old(self).spec_events(),
            final(self).spec_event_base() == old(self).spec_event_base(),
            final(self).spec_tick() == old(self).spec_tick(),
    {
        proof {
            use_type_invariant(&*self);
        }
        let id = self.next_net_id;
        self.next_net_id = id + 1;
        id
    }

    /// Hands out the next roster slot.
    pub fn allocate_slot(&mut self) -> (r: usize)
        requires
            old(self).spec_next_slot() < usize::MAX,
        ensures
            r == old(self).spec_next_slot(),
            final(self).spec_next_slot() == r + 1,
            final(self).spec_next_net_id() == old(self).spec_next_net_id(),
            final(self).spec_events() == old(self).spec_events(),
            final(self).spec_event_base() == old(self).spec_event_base(),
            final(self).spec_tick() == old(self).spec_tick(),
    {
        proof {
            use_type_invariant(&*self);
        }
        let slot = self.next_slot;
        self.next_slot = slot + 1;
        slot
    }

    /// Advances the snapshot tick, wrapping around.
    pub fn advance_tick(&mut self) -> (r: u32)
        ensures
            r == seq_add(old(self).spec_tick(), 1),
            final(self).spec_tick() == r,
            final(self).spec_next_net_id() == old(self).spec_next_net_id(),
            final(self).spec_next_slot() == old(self).spec_next_slot(),
            final(self).spec_events() == old(self).spec_events(),
            final(self).spec_event_base() == old(self).spec_event_base(),
    {
        proof {
            use_type_invariant(&*self);
        }
        self.tick = self.tick.wrapping_add(1);
        self.tick
    }
}

/// Appending an event keeps the sequence number of every event that stays, and the
/// new event is numbered right after the previous last one.
pub proof fn lemma_push_keeps_sequence<E>(events: Seq<E>, base: u32, event: E)
    requires
        events.len() <= EVENT_HISTORY,
    ensures
        ({
            let after = pushed_events(events, event);
            let after_base = pushed_base(events, base);
            let gone = events.len() + 1 - after.len();
            &&& after.len() <= EVENT_HISTORY
            &&& after.last() == event
            &&& seq_add(after_base, after.len() - 1) == seq_add(base, events.len() as int)
            &&& forall|i: int|
                0 <= i < after.len() - 1 ==> after[i] == events[i + gone] && seq_add(after_base, i)
                    == seq_add(base, i + gone)
        }),
{
}

/// Phase reported to the hub in heartbeats.
pub open spec fn spec_phase(state: GameState) -> Seq<char> {
    match state {
        GameState::Playing => "live"@,
        GameState::Finished => "finished"@,
        _ => "warmup"@,
    }
}

pub fn heartbeat_phase(state: GameState) -> (r: &'static str)
    ensures
        r@ == spec_phase(state),
{
    match state {
        GameState::Playing => "live",
        GameState::Finished => "finished",
        _ => "warmup",
    }
}

/// The accounts of signed-in players (account 0 is a player without an account).
pub fn signed_in_accounts(accounts: &Vec<i64>) -> (r: Vec<i64>)
    ensures
        r@ == accounts@.filter(|a: i64| a != 0),
{
    let mut out: Vec<i64> = Vec::new();
    let mut i: usize = 0;
    while i < accounts.len()
        invariant
            i <= accounts@.len(),
            out@ == accounts@.take(i as int).filter(|a: i64| a != 0),
        decreases accounts@.len() - i,
    {
        proof {
            reveal_with_fuel(Seq::<_>::filter, 1);
            assert(accounts@.take(i + 1).drop_last() =~= accounts@.take(i as int));
        }
        if accounts[i] != 0 {
            out.push(accounts[i]);
        }
        i += 1;
    }
    assert(accounts@.take(accounts@.len() as int) =~= accounts@);
    out
}

/// Largest kill count of the match, 0 when nobody played.
pub open spec fn max_kills(kills: Seq<u32>) -> u32
    decreases kills.len(),
{
    if kills.len() == 0 {
        0
    } else {
        let rest = max_kills(kills.drop_last());
        if kills.last() > rest {
            kills.last()
        } else {
            rest
        }
    }
}

/// The top kill count is no smaller than anyone's, and is someone's (0 when
/// nobody played).
pub proof fn lemma_top_is_maximum(kills: Seq<u32>)
    ensures
        forall|i: int| 0 <= i < kills.len() ==> kills[i] <= max_kills(kills),
        kills.len() > 0 ==> exists|i: int| 0 <= i < kills.len() && kills[i] == max_kills(kills),
        kills.len() == 0 ==> max_kills(kills) == 0,
    decreases kills.len(),
{
    if kills.len() > 0 {
        let rest = kills.drop_last();
        lemma_top_is_maximum(rest);
        assert forall|i: int| 0 <= i < kills.len() implies kills[i] <= max_kills(kills) by {
            if i < rest.len() {
                assert(kills[i] == rest[i]);
            }
        }
        if kills.last() > max_kills(rest) {
            assert(kills[kills.len() - 1] == max_kills(kills));
        } else if rest.len() > 0 {
            let j = choose|j: int| 0 <= j < rest.len() && rest[j] == max_kills(rest);
            assert(kills[j] == max_kills(kills));
        } else {
            assert(kills[0] == max_kills(kills));
        }
    }
}

pub fn top_kills(kills: &Vec<u32>) -> (r: u32)
    ensures
        r == max_kills(kills@),
        forall|i: int| 0 <= i < kills@.len() ==> kills@[i] <= r,
        kills@.len() > 0 ==> exists|i: int| 0 <= i < kills@.len() && kills@[i] == r,
        kills@.len() == 0 ==> r == 0,
{
    proof {
        lemma_top_is_maximum(kills@);
    }
    let mut top: u32 = 0;
    let mut i: usize = 0;
    while i < kills.len()
        invariant
            i <= kills@.len(),
            top == max_kills(kills@.take(i as int)),
        decreases kills@.len() - i,
    {
        assert(kills@.take(i + 1).drop_last() =~= kills@.take(i as int));
        if kills[i] > top {
            top = kills[i];
        }
        i += 1;
    }
    assert(kills@.take(kills@.len() as int) =~= kills@);
    top
}

/// One line of the match report the server sends to the hub.
#[derive(Clone, Copy, Debug, PartialEq, Eq, Structural)]
pub struct ReportEntry {
    pub account_id: i64,
    pub kills: u32,
    pub deaths: u32,
    pub won: bool,
}

/// The report line of a player: only players with an account are reported, and a
/// player wins by having the top kill count, when anyone scored at all.
pub fn report_entry(account_id: i64, kills: u32, deaths: u32, top: u32) -> (r: Option<ReportEntry>)
    ensures
        account_id == 0 ==> r is None,
        account_id != 0 ==> r == Some(
            ReportEntry { account_id, kills, deaths, won: kills == top && top > 0 },
        ),
{
    if account_id == 0 {
        None
    } else {
        Some(ReportEntry { account_id, kills, deaths, won: kills == top && top > 0 })
    }
}

/// The match a dedicated server hosts takes its mode, map and limits from the
/// command line.
pub fn configure_match(config: &mut GameConfig, args: &ServerArgs)
    ensures
        final(config).mode == args.mode,
        final(config).map == args.map,
        final(config).match_settings.time_limit_secs == Some(args.time_limit_secs),
        final(config).match_settings.score_limit == Some(args.score_limit),
        final(config).match_settings.respawn_secs == old(config).match_settings.respawn_secs,
        final(config).bot_difficulty == old(config).bot_difficulty,
{
    config.mode = args.mode;
    config.map = args.map;
    config.match_settings.time_limit_secs = Some(args.time_limit_secs);
    config.match_settings.score_limit = Some(args.score_limit);
}

/// Milliseconds a finished server keeps sending the result before it exits.
pub const SHUTDOWN_GRACE_MS: u64 = 12000;

/// A finished server remembers when it first saw the end, and exits once more than
/// the grace period has passed since.
pub fn shutdown_due(finished_at: &mut Option<u64>, now_ms: u64) -> (r: bool)
    ensures
        *final(finished_at) == Some(
            match *old(finished_at) {
                Some(t) => t,
                None => now_ms,
            },
        ),
        r == (now_ms - final(finished_at)->Some_0 > SHUTDOWN_GRACE_MS),
{
    let started = match *finished_at {
        Some(t) => t,
        None => now_ms,
    };
    *finished_at = Some(started);
    now_ms > started && now_ms - started > SHUTDOWN_GRACE_MS
}

} // verus!
