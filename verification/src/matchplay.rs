//! Match rules: teams, the local roster, spawn selection and when a match ends.
use vstd::prelude::*;
use crate::config::GameMode;
use crate::skins::SkinId;

verus! {

#[derive(Clone, Copy, Debug, PartialEq, Eq, Structural)]
pub enum Team {
    Attacker,
    Defender,
}

impl Team {
    pub open spec fn spec_index(self) -> usize {
        if self == Team::Attacker {
            0
        } else {
            1
        }
    }

    /// Position of the team in score arrays.
    pub fn index(self) -> (r: usize)
        ensures
            r == self.spec_index(),
    {
        if self == Team::Attacker {
            0
        } else {
            1
        }
    }

    pub open spec fn spec_other(self) -> Team {
        if self == Team::Attacker {
            Team::Defender
        } else {
            Team::Attacker
        }
    }
}

/// Default names, by slot.
pub open spec fn spec_combatant_name(slot: usize) -> Seq<char> {
    let k = slot % 6;
    if k == 0 {
        "YOU"@
    } else if k == 1 {
        "CEDAR"@
    } else if k == 2 {
        "MASON"@
    } else if k == 3 {
        "ROOK"@
    } else if k == 4 {
        "FLINT"@
    } else {
        "ASH"@
    }
}

/// The name an actor gets when spawned without one: six names, repeated by slot.
pub fn combatant_name(slot: usize) -> (r: &'static str)
    ensures
        r@ == spec_combatant_name(slot),
{
    let names: [&'static str; 6] = ["YOU", "CEDAR", "MASON", "ROOK", "FLINT", "ASH"];
    let r = names[slot % 6];
    assert(r@ == spec_combatant_name(slot)) by {
        let k = slot % 6;
        assert(names@[k as int] == r);
    }
    r
}

/// The skin an actor of a team wears.
pub fn team_skin(team: Team) -> (r: SkinId)
    ensures
        r == (if team == Team::Attacker {
            SkinId::Soldier
        } else {
            SkinId::Police
        }),
{
    if team == Team::Attacker {
        SkinId::Soldier
    } else {
        SkinId::Police
    }
}

/// The local player joins the defenders when wearing the police skin, the attackers otherwise.
pub fn human_team(skin: SkinId) -> (r: Team)
    ensures
        r == (if skin == SkinId::Police {
            Team::Defender
        } else {
            Team::Attacker
        }),
{
    if skin == SkinId::Police {
        Team::Defender
    } else {
        Team::Attacker
    }
}

pub open spec fn spec_roster_size(mode: GameMode) -> usize {
    match mode {
        GameMode::TeamDeathmatch => 6,
        GameMode::Deathmatch => 8,
        GameMode::Freemode => 1,
    }
}

/// How many actors a local match spawns, the local player included.
pub fn roster_size(mode: &GameMode) -> (r: usize)
    ensures
        r == spec_roster_size(*mode),
{
    match mode {
        GameMode::TeamDeathmatch => 6,
        GameMode::Deathmatch => 8,
        GameMode::Freemode => 1,
    }
}

pub open spec fn spec_slot_team(mode: GameMode, human: Team, slot: usize) -> Team {
    if mode == GameMode::Deathmatch {
        if slot % 2 == 0 {
            human
        } else {
            human.spec_other()
        }
    } else if slot < 3 {
        human
    } else {
        human.spec_other()
    }
}

/// The team of a local-match slot: alternating in deathmatch, the first three slots
/// with the local player otherwise.
pub fn slot_team(mode: &GameMode, human: Team, slot: usize) -> (r: Team)
    ensures
        r == spec_slot_team(*mode, human, slot),
        *mode == GameMode::TeamDeathmatch ==> (r == human <==> slot < 3),
{
    proof {
        lemma_three_against_three(human, slot);
    }
    let other = if human == Team::Attacker {
        Team::Defender
    } else {
        Team::Attacker
    };
    if *mode == GameMode::Deathmatch {
        if slot % 2 == 0 {
            human
        } else {
            other
        }
    } else if slot < 3 {
        human
    } else {
        other
    }
}

/// In team deathmatch the local player's team holds the first three slots and
/// the other team every later one.
pub proof fn lemma_three_against_three(human: Team, slot: usize)
    ensures
        spec_slot_team(GameMode::TeamDeathmatch, human, slot) == human <==> slot < 3,
{
}

/// A team deathmatch roster is three against three, whichever team the local
/// player is on.
pub proof fn lemma_tdm_roster_balanced(human: Team, teams: Seq<Team>)
    requires
        teams.len() == spec_roster_size(GameMode::TeamDeathmatch),
        forall|slot: int|
            0 <= slot < teams.len() ==> teams[slot] == spec_slot_team(GameMode::TeamDeathmatch, human, slot as usize),
    ensures
        count_team(teams, Team::Attacker) == 3,
        count_team(teams, Team::Defender) == 3,
{
    assert forall|slot: int| 0 <= slot < teams.len() implies (teams[slot] == human <==> slot < 3) by {
        lemma_three_against_three(human, slot as usize);
    }
    assert(teams.len() == 6);
    reveal_with_fuel(count_team, 7);
    assert(teams.take(6) =~= teams);
    assert(teams.drop_last() =~= teams.take(5));
    assert(teams.take(5).drop_last() =~= teams.take(4));
    assert(teams.take(4).drop_last() =~= teams.take(3));
    assert(teams.take(3).drop_last() =~= teams.take(2));
    assert(teams.take(2).drop_last() =~= teams.take(1));
    assert(teams.take(1).drop_last() =~= teams.take(0));
}

/// The teams of a whole local roster, by slot.
pub fn roster(mode: &GameMode, human: Team) -> (r: Vec<Team>)
    ensures
        r@.len() == spec_roster_size(*mode),
        forall|slot: int| 0 <= slot < r@.len() ==> r@[slot] == spec_slot_team(*mode, human, slot as usize),
{
    let count = roster_size(mode);
    let mut out: Vec<Team> = Vec::new();
    let mut slot: usize = 0;
    while slot < count
        invariant
            count == spec_roster_size(*mode),
            slot <= count,
            out@.len() == slot,
            forall|k: int| 0 <= k < slot ==> out@[k] == spec_slot_team(*mode, human, k as usize),
        decreases count - slot,
    {
        out.push(slot_team(mode, human, slot));
        slot += 1;
    }
    out
}

/// Number of entries of `teams` that are `team`.
pub open spec fn count_team(teams: Seq<Team>, team: Team) -> nat
    decreases teams.len(),
{
    if teams.len() == 0 {
        0
    } else {
        count_team(teams.drop_last(), team) + if teams.last() == team {
            1nat
        } else {
            0nat
        }
    }
}

/// How many actors each team has, attackers first.
pub fn team_counts(teams: &Vec<Team>) -> (r: [usize; 2])
    ensures
        r[0] == count_team(teams@, Team::Attacker),
        r[1] == count_team(teams@, Team::Defender),
{
    let mut counts: [usize; 2] = [0, 0];
    let mut i: usize = 0;
    while i < teams.len()
        invariant
            i <= teams@.len(),
            counts[0] == count_team(teams@.take(i as int), Team::Attacker),
            counts[1] == count_team(teams@.take(i as int), Team::Defender),
            counts[0] + counts[1] == i,
        decreases teams@.len() - i,
    {
        assert(teams@.take(i + 1).drop_last() =~= teams@.take(i as int));
        let k = teams[i].index();
        counts[k] = counts[k] + 1;
        i += 1;
    }
    assert(teams@.take(teams@.len() as int) =~= teams@);
    counts
}

/// Every actor is on exactly one of the two teams.
pub proof fn lemma_team_counts_total(teams: Seq<Team>)
    ensures
        count_team(teams, Team::Attacker) + count_team(teams, Team::Defender) == teams.len(),
    decreases teams.len(),
{
    if teams.len() > 0 {
        lemma_team_counts_total(teams.drop_last());
    }
}

/// A joining player goes to the smaller team, the attackers on a tie.
pub fn assign_team(counts: [usize; 2]) -> (r: Team)
    ensures
        r == (if counts[0] <= counts[1] {
            Team::Attacker
        } else {
            Team::Defender
        }),
{
    if counts[0] <= counts[1] {
        Team::Attacker
    } else {
        Team::Defender
    }
}

/// A spawn point serves `team` when it has no team or that team.
pub open spec fn serves(point: Option<Team>, team: Team) -> bool {
    point is None || point == Some(team)
}

/// Indices of the spawn points that serve `team`, in map order.
pub open spec fn spec_candidates(points: Seq<Option<Team>>, team: Team) -> Seq<int> {
    Seq::new(points.len(), |i: int| i).filter(|i: int| serves(points[i], team))
}

/// The spawn points (by index) that serve `team`, in map order.
pub fn spawn_candidates(points: &Vec<Option<Team>>, team: Team) -> (r: Vec<usize>)
    ensures
        r@.map_values(|i: usize| i as int) == spec_candidates(points@, team),
{
    let ghost all = Seq::new(points@.len(), |i: int| i);
    let mut out: Vec<usize> = Vec::new();
    let mut i: usize = 0;
    while i < points.len()
        invariant
            i <= points@.len(),
            all == Seq::new(points@.len(), |i: int| i),
            out@.map_values(|i: usize| i as int) == all.take(i as int).filter(
                |k: int| serves(points@[k], team),
            ),
        decreases points@.len() - i,
    {
        proof {
            reveal_with_fuel(Seq::<_>::filter, 1);
            assert(all.take(i + 1).drop_last() =~= all.take(i as int));
        }
        let serving = match points[i] {
            None => true,
            Some(t) => t == team,
        };
        if serving {
            out.push(i);
        }
        assert(out@.map_values(|i: usize| i as int) =~= all.take(i + 1).filter(
            |k: int| serves(points@[k], team),
        ));
        i += 1;
    }
    assert(all.take(points@.len() as int) =~= all);
    out
}

/// The `attempt`-th spawn tried on a respawn: actors rotate through their candidates
/// by slot and death count so that consecutive respawns use different points.
pub fn respawn_choice(attempt: usize, slot: usize, deaths: u32, candidates: usize) -> (r: usize)
    requires
        candidates > 0,
        attempt + slot + deaths <= usize::MAX,
    ensures
        r == (attempt + slot + deaths) % (candidates as int),
        r < candidates,
{
    (attempt + slot + deaths as usize) % candidates
}

/// The spawn point (by index into `points`) of an actor spawned without an explicit
/// placement: the `slot % 3`-th point serving its team, else the first such point,
/// else the map's first point.
pub fn default_spawn_point(points: &Vec<Option<Team>>, team: Team, slot: usize) -> (r: usize)
    requires
        points@.len() > 0,
    ensures
        ({
            let c = spec_candidates(points@, team);
            r as int == (if c.len() > slot % 3 {
                c[(slot % 3) as int]
            } else if c.len() > 0 {
                c[0]
            } else {
                0
            })
        }),
{
    let candidates = spawn_candidates(points, team);
    proof {
        assert(candidates@.len() == spec_candidates(points@, team).len());
    }
    if candidates.len() > slot % 3 {
        proof {
            assert(candidates@.map_values(|i: usize| i as int)[(slot % 3) as int] == candidates@[(
            slot % 3) as int] as int);
        }
        candidates[slot % 3]
    } else if candidates.len() > 0 {
        proof {
            assert(candidates@.map_values(|i: usize| i as int)[0] == candidates@[0] as int);
        }
        candidates[0]
    } else {
        0
    }
}

/// The spawn point (by index into `points`) a server places a joining actor on: team
/// points only matter in team modes, and actors rotate through them by slot.
pub fn placement_point(points: &Vec<Option<Team>>, mode: &GameMode, team: Team, slot: usize) -> (r: usize)
    requires
        ({
            let c = if mode.spec_teams() {
                spec_candidates(points@, team)
            } else {
                Seq::new(points@.len(), |i: int| i)
            };
            c.len() > 0
        }),
    ensures
        ({
            let c = if mode.spec_teams() {
                spec_candidates(points@, team)
            } else {
                Seq::new(points@.len(), |i: int| i)
            };
            r as int == c[(slot as int) % (c.len() as int)]
        }),
{
    if mode.teams() {
        let candidates = spawn_candidates(points, team);
        let k = slot % candidates.len();
        proof {
            assert(candidates@.map_values(|i: usize| i as int)[k as int] == candidates@[k as int] as int);
        }
        candidates[k]
    } else {
        slot % points.len()
    }
}

/// Whether a team deathmatch is over: its time is up or a team reached the score limit.
/// Other modes never end by themselves. `time_up` is whether the elapsed time reached
/// the time limit; it is false when there is none.
pub fn match_over(mode: &GameMode, time_up: bool, score_limit: Option<u32>, score: [u32; 2]) -> (r: bool)
    ensures
        r == (*mode == GameMode::TeamDeathmatch && (time_up || match score_limit {
            Some(s) => score[0] >= s || score[1] >= s,
            None => false,
        })),
{
    let limit_reached = match score_limit {
        Some(s) => score[0] >= s || score[1] >= s,
        None => false,
    };
    *mode == GameMode::TeamDeathmatch && (time_up || limit_reached)
}

pub open spec fn spec_match_result(score: [u32; 2]) -> Seq<char> {
    if score[0] > score[1] {
        "ATTACKERS WIN"@
    } else if score[0] < score[1] {
        "DEFENDERS WIN"@
    } else {
        "DRAW"@
    }
}

/// The team with more kills wins, and only equal scores are a draw.
pub proof fn lemma_result_follows_score(score: [u32; 2])
    ensures
        score[0] > score[1] ==> spec_match_result(score) == "ATTACKERS WIN"@,
        score[0] < score[1] ==> spec_match_result(score) == "DEFENDERS WIN"@,
        score[0] == score[1] <==> spec_match_result(score) == "DRAW"@,
{
    reveal_strlit("ATTACKERS WIN");
    reveal_strlit("DEFENDERS WIN");
    reveal_strlit("DRAW");
    assert("ATTACKERS WIN"@.len() != "DRAW"@.len());
    assert("DEFENDERS WIN"@.len() != "DRAW"@.len());
}

/// The result line of a finished match.
pub fn match_result(score: [u32; 2]) -> (r: &'static str)
    ensures
        r@ == spec_match_result(score),
        score[0] > score[1] ==> r@ == "ATTACKERS WIN"@,
        score[0] < score[1] ==> r@ == "DEFENDERS WIN"@,
        score[0] == score[1] <==> r@ == "DRAW"@,
{
    proof {
        lemma_result_follows_score(score);
    }
    if score[0] > score[1] {
        "ATTACKERS WIN"
    } else if score[0] < score[1] {
        "DEFENDERS WIN"
    } else {
        "DRAW"
    }
}

} // verus!
