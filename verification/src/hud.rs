//! In-match overlay rules: how names fit the kill feed, how many kills it shows,
//! and the order of the team ranking.
use vstd::prelude::*;
use crate::config::{GameMode, MatchSettings};
use crate::game::GameState;
use crate::matchplay::Team;
use crate::text::{decimal, prefix_chars, spec_decimal, take_chars};
use std::collections::VecDeque;

verus! {

/// Names longer than this are shortened in the kill feed.
pub const FEED_NAME_CHARS: usize = 22;

/// Kills shown at once; the oldest leaves when another arrives.
pub const KILL_FEED_CAPACITY: usize = 4;

/// A name as the kill feed shows it: whole when it has at most
/// `FEED_NAME_CHARS` characters, otherwise its first `FEED_NAME_CHARS - 1`
/// characters and an ellipsis.
pub open spec fn spec_display_name(name: Seq<char>) -> Seq<char> {
    if name.len() <= FEED_NAME_CHARS {
        name
    } else {
        prefix_chars(name, (FEED_NAME_CHARS - 1) as nat).push('…')
    }
}

pub fn display_name(name: &str) -> (r: String)
    ensures
        r@ == spec_display_name(name@),
{
    if name.unicode_len() <= FEED_NAME_CHARS {
        String::from_str(name)
    } else {
        let mut r = take_chars(name, FEED_NAME_CHARS - 1);
        r.append("…");
        proof {
            reveal_strlit("…");
        }
        assert(r@ =~= prefix_chars(name@, (FEED_NAME_CHARS - 1) as nat).push('…'));
        r
    }
}

/// The feed after a kill arrives: the new entry goes last, and the oldest leaves
/// when the feed was full.
pub open spec fn spec_fed<T>(feed: Seq<T>, entry: T) -> Seq<T> {
    if feed.len() >= KILL_FEED_CAPACITY {
        feed.drop_first().push(entry)
    } else {
        feed.push(entry)
    }
}

pub fn push_feed<T>(feed: &mut VecDeque<T>, entry: T)
    requires
        old(feed)@.len() <= KILL_FEED_CAPACITY,
    ensures
        final(feed)@ == spec_fed(old(feed)@, entry),
        final(feed)@.len() <= KILL_FEED_CAPACITY,
{
    if feed.len() >= KILL_FEED_CAPACITY {
        feed.pop_front();
    }
    feed.push_back(entry);
}

/// The team ranking shows in team deathmatch only; the practice counters show
/// in the other modes.
pub fn ranking_shown(mode: GameMode) -> (r: bool)
    ensures
        r == (mode == GameMode::TeamDeathmatch),
{
    mode == GameMode::TeamDeathmatch
}

/// Whether the combatant at index `i`, with `a` = (kills, slot), ranks before the
/// one at index `j` with `b`: more kills first, then the lower slot, then the
/// earlier entry.
pub open spec fn ranks_before(a: (u32, usize), i: int, b: (u32, usize), j: int) -> bool {
    a.0 > b.0 || (a.0 == b.0 && (a.1 < b.1 || (a.1 == b.1 && i < j)))
}

/// `order` lists every index of `standings` once, best ranked first.
pub open spec fn is_ranking(standings: Seq<(u32, usize)>, order: Seq<usize>) -> bool {
    &&& order.len() == standings.len()
    &&& forall|k: int| 0 <= k < order.len() ==> #[trigger] order[k] < standings.len()
    &&& forall|k: int, l: int| 0 <= k < l < order.len() ==> #[trigger] order[k] != #[trigger] order[l]
    &&& forall|k: int, l: int|
        0 <= k < l < order.len() ==> ranks_before(
            standings[#[trigger] order[k] as int],
            order[k] as int,
            standings[#[trigger] order[l] as int],
            order[l] as int,
        )
}

fn before(standings: &Vec<(u32, usize)>, i: usize, j: usize) -> (r: bool)
    requires
        i < standings@.len(),
        j < standings@.len(),
    ensures
        r == ranks_before(standings@[i as int], i as int, standings@[j as int], j as int),
{
    let (ka, sa) = standings[i];
    let (kb, sb) = standings[j];
    ka > kb || (ka == kb && (sa < sb || (sa == sb && i < j)))
}

/// The order of the ranking cards: indices of `standings` (kills, slot), by kills
/// from most to least, ties by slot.
pub fn rank_order(standings: &Vec<(u32, usize)>) -> (r: Vec<usize>)
    ensures
        is_ranking(standings@, r@),
{
    let n = standings.len();
    let mut order: Vec<usize> = Vec::new();
    let mut i: usize = 0;
    while i < n
        invariant
            n == standings@.len(),
            i <= n,
            order@.len() == i,
            forall|k: int| 0 <= k < order@.len() ==> #[trigger] order@[k] < i,
            forall|k: int, l: int| 0 <= k < l < order@.len() ==> #[trigger] order@[k] != #[trigger] order@[l],
            forall|k: int, l: int|
                0 <= k < l < order@.len() ==> ranks_before(
                    standings@[#[trigger] order@[k] as int],
                    order@[k] as int,
                    standings@[#[trigger] order@[l] as int],
                    order@[l] as int,
                ),
        decreases n - i,
    {
        // Find where `i` goes: after every entry that ranks before it.
        let mut pos: usize = 0;
        while pos < order.len() && before(standings, order[pos], i)
            invariant
                n == standings@.len(),
                i < n,
                pos <= order@.len(),
                forall|k: int| 0 <= k < order@.len() ==> #[trigger] order@[k] < i,
                forall|k: int|
                    0 <= k < pos ==> ranks_before(
                        standings@[#[trigger] order@[k] as int],
                        order@[k] as int,
                        standings@[i as int],
                        i as int,
                    ),
            decreases order@.len() - pos,
        {
            pos = pos + 1;
        }
        let ghost old_order = order@;
        proof {
            // Everything from `pos` on ranks after `i`: the first of them does, and
            // the rest rank after that one.
            assert forall|k: int| pos <= k < old_order.len() implies !ranks_before(
                standings@[#[trigger] old_order[k] as int],
                old_order[k] as int,
                standings@[i as int],
                i as int,
            ) by {
                if k > pos {
                    assert(ranks_before(
                        standings@[old_order[pos as int] as int],
                        old_order[pos as int] as int,
                        standings@[old_order[k] as int],
                        old_order[k] as int,
                    ));
                }
            }
        }
        order.insert(pos, i);
        proof {
            assert(order@ =~= old_order.insert(pos as int, i));
            assert forall|k: int| 0 <= k < order@.len() implies #[trigger] order@[k] < i + 1 by {
                if k < pos {
                    assert(order@[k] == old_order[k]);
                } else if k > pos {
                    assert(order@[k] == old_order[k - 1]);
                }
            }
            assert forall|k: int, l: int| 0 <= k < l < order@.len() implies #[trigger] order@[k]
                != #[trigger] order@[l] by {
                if k != pos && l != pos {
                    let kk = if k < pos { k } else { k - 1 };
                    let ll = if l < pos { l } else { l - 1 };
                    assert(order@[k] == old_order[kk]);
                    assert(order@[l] == old_order[ll]);
                } else if k == pos {
                    assert(order@[l] == old_order[l - 1]);
                } else {
                    assert(order@[k] == old_order[k]);
                }
            }
            assert forall|k: int, l: int| 0 <= k < l < order@.len() implies ranks_before(
                standings@[#[trigger] order@[k] as int],
                order@[k] as int,
                standings@[#[trigger] order@[l] as int],
                order@[l] as int,
            ) by {
                if k != pos && l != pos {
                    let kk = if k < pos { k } else { k - 1 };
                    let ll = if l < pos { l } else { l - 1 };
                    assert(order@[k] == old_order[kk]);
                    assert(order@[l] == old_order[ll]);
                } else if k == pos {
                    let ll = l - 1;
                    assert(order@[l] == old_order[ll]);
                    assert(!ranks_before(
                        standings@[old_order[ll] as int],
                        old_order[ll] as int,
                        standings@[i as int],
                        i as int,
                    ));
                    assert(old_order[ll] < i);
                } else {
                    assert(order@[k] == old_order[k]);
                }
            }
        }
        i = i + 1;
    }
    order
}

/// `n` in decimal with at least two digits.
pub open spec fn two_digits(n: nat) -> Seq<char> {
    if n < 10 {
        seq!['0'] + spec_decimal(n)
    } else {
        spec_decimal(n)
    }
}

fn two_digit_text(n: u32) -> (r: String)
    ensures
        r@ == two_digits(n as nat),
{
    let digits = decimal(n as u64);
    if n < 10 {
        let mut r = String::from_str("0");
        r.append(digits.as_str());
        proof {
            reveal_strlit("0");
        }
        r
    } else {
        digits
    }
}

/// The match clock: minutes and seconds left in team deathmatch, dashes in the
/// other modes.
pub open spec fn spec_clock_text(mode: GameMode, remaining_secs: u32) -> Seq<char> {
    if mode == GameMode::TeamDeathmatch {
        two_digits((remaining_secs / 60) as nat) + ":"@ + two_digits((remaining_secs % 60) as nat)
    } else {
        "--:--"@
    }
}

pub fn clock_text(mode: GameMode, remaining_secs: u32) -> (r: String)
    ensures
        r@ == spec_clock_text(mode, remaining_secs),
{
    if mode == GameMode::TeamDeathmatch {
        let mut r = two_digit_text(remaining_secs / 60);
        r.append(":");
        let seconds = two_digit_text(remaining_secs % 60);
        r.append(seconds.as_str());
        r
    } else {
        String::from_str("--:--")
    }
}

/// The team scores as the HUD shows them.
pub open spec fn spec_score_text(score: [u32; 2]) -> Seq<char> {
    spec_decimal(score[0] as nat) + " : "@ + spec_decimal(score[1] as nat)
}

pub fn score_text(score: [u32; 2]) -> (r: String)
    ensures
        r@ == spec_score_text(score),
{
    let mut r = decimal(score[0] as u64);
    r.append(" : ");
    let second = decimal(score[1] as u64);
    r.append(second.as_str());
    r
}

/// The mode badge: `TDM` in team deathmatch, `PRACTICE` otherwise.
pub fn mode_label(mode: GameMode) -> (r: &'static str)
    ensures
        r@ == (if mode == GameMode::TeamDeathmatch {
            "TDM"@
        } else {
            "PRACTICE"@
        }),
{
    if mode == GameMode::TeamDeathmatch {
        "TDM"
    } else {
        "PRACTICE"
    }
}

/// Living combatants of `team` among (team, alive) pairs.
pub open spec fn alive_on(actors: Seq<(Team, bool)>, team: Team) -> nat
    decreases actors.len(),
{
    if actors.len() == 0 {
        0
    } else {
        alive_on(actors.drop_last(), team) + if actors.last().0 == team && actors.last().1 {
            1nat
        } else {
            0nat
        }
    }
}

/// Living combatants per team, attackers first.
pub fn alive_counts(actors: &Vec<(Team, bool)>) -> (r: [usize; 2])
    ensures
        r[0] == alive_on(actors@, Team::Attacker),
        r[1] == alive_on(actors@, Team::Defender),
{
    let mut counts: [usize; 2] = [0, 0];
    let mut i: usize = 0;
    while i < actors.len()
        invariant
            i <= actors@.len(),
            counts[0] == alive_on(actors@.take(i as int), Team::Attacker),
            counts[1] == alive_on(actors@.take(i as int), Team::Defender),
            counts[0] <= i && counts[1] <= i,
        decreases actors@.len() - i,
    {
        assert(actors@.take(i + 1).drop_last() =~= actors@.take(i as int));
        let (team, alive) = actors[i];
        if alive {
            if team == Team::Attacker {
                counts[0] = counts[0] + 1;
            } else {
                counts[1] = counts[1] + 1;
            }
        }
        i += 1;
    }
    assert(actors@.take(actors@.len() as int) =~= actors@);
    counts
}

/// The centre status text. `respawn_secs` is the rounded respawn time of the local
/// player while eliminated.
pub open spec fn spec_status_text(
    state: GameState,
    map_name: Seq<char>,
    message: Seq<char>,
    result: Seq<char>,
    score: [u32; 2],
    respawn_secs: Option<u64>,
) -> Seq<char> {
    match state {
        GameState::Loading => "LOADING "@ + map_name + "\n"@ + message + "\nEsc - cancel"@,
        GameState::LoadFailed => "COULD NOT START MATCH\n"@ + message + "\nEnter - retry    Esc - menu"@,
        GameState::Finished => result + "\n"@ + spec_score_text(score) + "\nEnter - play again    Esc - menu"@,
        GameState::Playing => match respawn_secs {
            Some(t) => "ELIMINATED\nRespawn in "@ + spec_decimal(t as nat),
            None => Seq::empty(),
        },
        _ => Seq::empty(),
    }
}

pub fn status_text(
    state: GameState,
    map_name: &str,
    message: &str,
    result: &str,
    score: [u32; 2],
    respawn_secs: Option<u64>,
) -> (r: String)
    ensures
        r@ == spec_status_text(state, map_name@, message@, result@, score, respawn_secs),
{
    match state {
        GameState::Loading => {
            let mut r = String::from_str("LOADING ");
            r.append(map_name);
            r.append("\n");
            r.append(message);
            r.append("\nEsc - cancel");
            r
        },
        GameState::LoadFailed => {
            let mut r = String::from_str("COULD NOT START MATCH\n");
            r.append(message);
            r.append("\nEnter - retry    Esc - menu");
            r
        },
        GameState::Finished => {
            let mut r = String::from_str(result);
            r.append("\n");
            let s = score_text(score);
            r.append(s.as_str());
            r.append("\nEnter - play again    Esc - menu");
            r
        },
        GameState::Playing => match respawn_secs {
            Some(t) => {
                let mut r = String::from_str("ELIMINATED\nRespawn in ");
                let d = decimal(t);
                r.append(d.as_str());
                r
            },
            None => String::new(),
        },
        _ => String::new(),
    }
}

/// The local match card's details: the limits of the match.
pub open spec fn spec_match_details(settings: MatchSettings) -> Seq<char> {
    let time = match settings.time_limit_secs {
        Some(s) => spec_decimal((s / 60) as nat) + " min"@,
        None => "Unlimited time"@,
    };
    let score = match settings.score_limit {
        Some(v) => "First to "@ + spec_decimal(v as nat) + " kills"@,
        None => "No score limit"@,
    };
    "Local bots · 3v3\n"@ + time + " · "@ + score
}

pub fn match_details(settings: &MatchSettings) -> (r: String)
    ensures
        r@ == spec_match_details(*settings),
{
    let mut r = String::from_str("Local bots · 3v3\n");
    match settings.time_limit_secs {
        Some(s) => {
            let d = decimal(s / 60);
            r.append(d.as_str());
            r.append(" min");
        },
        None => {
            r.append("Unlimited time");
        },
    }
    r.append(" · ");
    match settings.score_limit {
        Some(v) => {
            r.append("First to ");
            let d = decimal(v as u64);
            r.append(d.as_str());
            r.append(" kills");
        },
        None => {
            r.append("No score limit");
        },
    }
    r
}

} // verus!
