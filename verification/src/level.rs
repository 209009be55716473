//! Checks a gameplay map and the exported models must pass before a match loads.
use vstd::prelude::*;
use crate::config::GameMode;
use crate::matchplay::Team;
use crate::text::{decimal, spec_decimal, str_eq};

verus! {

/// Number of spawn points reserved for `team` (points open to both teams do not count).
pub open spec fn team_points(points: Seq<Option<Team>>, team: Team) -> nat
    decreases points.len(),
{
    if points.len() == 0 {
        0
    } else {
        team_points(points.drop_last(), team) + if points.last() == Some(team) {
            1nat
        } else {
            0nat
        }
    }
}

/// What a team deathmatch map needs: navigation, patrol destinations that all name a
/// navigation point, and three spawn points reserved for each team.
pub open spec fn team_map_ready(points: Seq<Option<Team>>, navigation: nat, patrol: Seq<usize>) -> bool {
    &&& navigation > 0
    &&& patrol.len() > 0
    &&& forall|i: int| 0 <= i < patrol.len() ==> patrol[i] < navigation
    &&& team_points(points, Team::Attacker) >= 3
    &&& team_points(points, Team::Defender) >= 3
}

fn count_team_points(points: &Vec<Option<Team>>, team: Team) -> (r: usize)
    ensures
        r == team_points(points@, team),
{
    let mut n: usize = 0;
    let mut i: usize = 0;
    while i < points.len()
        invariant
            i <= points@.len(),
            n == team_points(points@.take(i as int), team),
            n <= i,
        decreases points@.len() - i,
    {
        assert(points@.take(i + 1).drop_last() =~= points@.take(i as int));
        match points[i] {
            Some(t) => if t == team {
                n += 1;
            },
            None => {},
        }
        i += 1;
    }
    assert(points@.take(points@.len() as int) =~= points@);
    n
}

/// Validates a map's spawn and navigation data for a mode. `points` holds the team of
/// each spawn point, `navigation` the number of navigation points and `patrol` the
/// patrol destinations (indices of navigation points).
pub fn check_map(mode: &GameMode, points: &Vec<Option<Team>>, navigation: usize, patrol: &Vec<usize>) -> (r: Result<(), &'static str>)
    ensures
        points@.len() == 0 ==> (r matches Err(m) && m@ == "Map has no spawn points"@),
        points@.len() > 0 && *mode == GameMode::TeamDeathmatch && !team_map_ready(points@, navigation as nat, patrol@)
            ==> (r matches Err(m) && m@ == "Team Deathmatch requires navigation and three spawn points per team"@),
        r is Ok <==> points@.len() > 0 && (*mode != GameMode::TeamDeathmatch || team_map_ready(points@, navigation as nat, patrol@)),
{
    if points.len() == 0 {
        return Err("Map has no spawn points");
    }
    if *mode == GameMode::TeamDeathmatch {
        let mut patrol_ok = true;
        let mut i: usize = 0;
        while i < patrol.len()
            invariant
                i <= patrol@.len(),
                patrol_ok == forall|k: int| 0 <= k < i ==> patrol@[k] < navigation,
            decreases patrol@.len() - i,
        {
            if patrol[i] >= navigation {
                patrol_ok = false;
            }
            i += 1;
        }
        if navigation == 0 || patrol.len() == 0 || !patrol_ok || count_team_points(points, Team::Attacker) < 3
            || count_team_points(points, Team::Defender) < 3
        {
            return Err("Team Deathmatch requires navigation and three spawn points per team");
        }
    }
    Ok(())
}

/// What a loaded model export holds, by name: how many scenes, which named
/// animations and which named nodes.
#[derive(Clone, Debug)]
pub struct ExportFacts {
    pub scenes: usize,
    pub animations: Vec<String>,
    pub nodes: Vec<String>,
}

/// Whether one of `names` is `name`.
pub open spec fn present(names: Seq<String>, name: Seq<char>) -> bool {
    exists|k: int| 0 <= k < names.len() && names[k]@ == name
}

/// The first of `required`, in order, that `names` lacks.
pub open spec fn first_missing(names: Seq<String>, required: Seq<Seq<char>>) -> Option<Seq<char>>
    decreases required.len(),
{
    if required.len() == 0 {
        None
    } else if !present(names, required[0]) {
        Some(required[0])
    } else {
        first_missing(names, required.drop_first())
    }
}

/// The clips every character export must hold.
pub open spec fn character_clips() -> Seq<Seq<char>> {
    seq![
        "idle_rifle"@,
        "walk_forward"@,
        "walk_backward"@,
        "run_forward"@,
        "strafe_left"@,
        "strafe_right"@,
        "fire_rifle"@,
        "reload_rifle"@,
        "jump"@,
        "crouch_idle"@,
        "crouch_walk"@,
        "death"@,
    ]
}

/// The actions every weapon export (arms and gun) must hold.
pub open spec fn weapon_clips() -> Seq<Seq<char>> {
    seq!["idle_rifle"@, "fire_rifle"@, "reload_rifle"@]
}

/// The sockets every weapon export must hold.
pub open spec fn weapon_sockets() -> Seq<Seq<char>> {
    seq!["Muzzle"@, "Magazine"@, "Bolt"@, "WeaponGrip"@]
}

/// The clips a knife view or pose export must hold.
pub open spec fn knife_clips() -> Seq<Seq<char>> {
    seq!["idle_knife"@, "draw_knife"@, "slash_knife"@]
}

/// The knife exports, in the order they are checked.
pub open spec fn knife_label(j: int) -> Seq<char> {
    if j == 0 {
        "Knife Soldier view"@
    } else if j == 1 {
        "Knife Police view"@
    } else if j == 2 {
        "Knife world"@
    } else if j == 3 {
        "Attacker knife pose"@
    } else {
        "Defender knife pose"@
    }
}

/// The world knife needs no clip; the other knife exports need the knife clips.
pub open spec fn knife_needs_clips(j: int) -> bool {
    j != 2
}

/// The exports whose label starts with "Knife" (both views and the world knife)
/// need a `KnifeGrip` node.
pub open spec fn knife_needs_grip(j: int) -> bool {
    j <= 2
}

pub open spec fn weapon_ok(f: ExportFacts) -> bool {
    &&& f.scenes > 0
    &&& first_missing(f.animations@, weapon_clips()) is None
    &&& first_missing(f.nodes@, weapon_sockets()) is None
}

pub open spec fn knife_body_ok(f: ExportFacts, j: int) -> bool {
    f.scenes > 0 && (!knife_needs_clips(j) || first_missing(f.animations@, knife_clips()) is None)
}

pub open spec fn knife_grip_ok(f: ExportFacts, j: int) -> bool {
    !knife_needs_grip(j) || present(f.nodes@, "KnifeGrip"@)
}

/// The verdict on the characters from index `i` on: the first one lacking a clip.
pub open spec fn characters_verdict(characters: Seq<ExportFacts>, i: int) -> Result<(), Seq<char>>
    decreases characters.len() - i,
{
    if i < 0 || i >= characters.len() {
        Ok(())
    } else {
        match first_missing(characters[i].animations@, character_clips()) {
            Some(c) => Err("Character "@ + spec_decimal(i as nat) + " missing required clip "@ + c),
            None => characters_verdict(characters, i + 1),
        }
    }
}

/// The verdict on the knife exports from index `j` on.
pub open spec fn knives_verdict(knives: Seq<ExportFacts>, j: int) -> Result<(), Seq<char>>
    decreases knives.len() - j,
{
    if j < 0 || j >= knives.len() {
        Ok(())
    } else if !knife_body_ok(knives[j], j) {
        Err(knife_label(j) + " export is missing a scene or required knife clip"@)
    } else if !knife_grip_ok(knives[j], j) {
        Err(knife_label(j) + " export is missing KnifeGrip"@)
    } else {
        knives_verdict(knives, j + 1)
    }
}

/// The verdict on all exports: characters first, then the weapons, then the
/// knife exports, each in order; the first failing check names the error.
pub open spec fn exports_verdict(
    characters: Seq<ExportFacts>,
    weapons: Seq<ExportFacts>,
    knives: Seq<ExportFacts>,
) -> Result<(), Seq<char>> {
    match characters_verdict(characters, 0) {
        Err(m) => Err(m),
        Ok(()) => if exists|k: int| 0 <= k < weapons.len() && !weapon_ok(weapons[k]) {
            Err("Weapon export is missing a required scene, named action or socket"@)
        } else {
            knives_verdict(knives, 0)
        },
    }
}

fn has_name(names: &Vec<String>, name: &str) -> (r: bool)
    ensures
        r == present(names@, name@),
{
    let mut i: usize = 0;
    while i < names.len()
        invariant
            i <= names@.len(),
            forall|k: int| 0 <= k < i ==> names@[k]@ != name@,
        decreases names@.len() - i,
    {
        if str_eq(names[i].as_str(), name) {
            return true;
        }
        i += 1;
    }
    false
}

fn missing_name(names: &Vec<String>, required: &Vec<&'static str>) -> (r: Option<&'static str>)
    ensures
        first_missing(names@, required@.map_values(|s: &'static str| s@)) == match r {
            Some(m) => Some(m@),
            None => None::<Seq<char>>,
        },
{
    let ghost req = required@.map_values(|s: &'static str| s@);
    let mut i: usize = 0;
    assert(req.skip(0) =~= req);
    while i < required.len()
        invariant
            i <= required@.len(),
            req == required@.map_values(|s: &'static str| s@),
            first_missing(names@, req) == first_missing(names@, req.skip(i as int)),
        decreases required@.len() - i,
    {
        assert(req.skip(i as int).drop_first() =~= req.skip(i + 1));
        if !has_name(names, required[i]) {
            return Some(required[i]);
        }
        i += 1;
    }
    assert(req.skip(i as int).len() == 0);
    None
}

fn character_clip_list() -> (r: Vec<&'static str>)
    ensures
        r@.map_values(|s: &'static str| s@) == character_clips(),
{
    let r = vec![
        "idle_rifle",
        "walk_forward",
        "walk_backward",
        "run_forward",
        "strafe_left",
        "strafe_right",
        "fire_rifle",
        "reload_rifle",
        "jump",
        "crouch_idle",
        "crouch_walk",
        "death",
    ];
    assert(r@.map_values(|s: &'static str| s@) =~= character_clips());
    r
}

fn weapon_clip_list() -> (r: Vec<&'static str>)
    ensures
        r@.map_values(|s: &'static str| s@) == weapon_clips(),
{
    let r = vec!["idle_rifle", "fire_rifle", "reload_rifle"];
    assert(r@.map_values(|s: &'static str| s@) =~= weapon_clips());
    r
}

fn weapon_socket_list() -> (r: Vec<&'static str>)
    ensures
        r@.map_values(|s: &'static str| s@) == weapon_sockets(),
{
    let r = vec!["Muzzle", "Magazine", "Bolt", "WeaponGrip"];
    assert(r@.map_values(|s: &'static str| s@) =~= weapon_sockets());
    r
}

fn knife_clip_list() -> (r: Vec<&'static str>)
    ensures
        r@.map_values(|s: &'static str| s@) == knife_clips(),
{
    let r = vec!["idle_knife", "draw_knife", "slash_knife"];
    assert(r@.map_values(|s: &'static str| s@) =~= knife_clips());
    r
}

fn knife_label_of(j: usize) -> (r: &'static str)
    ensures
        r@ == knife_label(j as int),
{
    if j == 0 {
        "Knife Soldier view"
    } else if j == 1 {
        "Knife Police view"
    } else if j == 2 {
        "Knife world"
    } else if j == 3 {
        "Attacker knife pose"
    } else {
        "Defender knife pose"
    }
}

/// Validates the loaded exports before a match starts: every character export
/// holds every required animation clip; every weapon export (the arms and the
/// gun) a scene, its idle, fire and reload actions and its four sockets; and the
/// knife exports, in the order `knife_label` gives, a scene, the knife clips
/// (except the world knife) and, for the views and the world knife, a
/// `KnifeGrip`. The error names the first failing check.
pub fn check_exports(characters: &Vec<ExportFacts>, weapons: &Vec<ExportFacts>, knives: &[ExportFacts; 5]) -> (r:
    Result<(), String>)
    ensures
        match (r, exports_verdict(characters@, weapons@, knives@)) {
            (Ok(()), Ok(())) => true,
            (Err(m), Err(v)) => m@ == v,
            _ => false,
        },
{
    let clips = character_clip_list();
    let mut i: usize = 0;
    while i < characters.len()
        invariant
            i <= characters@.len(),
            clips@.map_values(|s: &'static str| s@) == character_clips(),
            characters_verdict(characters@, 0) == characters_verdict(characters@, i as int),
        decreases characters@.len() - i,
    {
        match missing_name(&characters[i].animations, &clips) {
            Some(clip) => {
                let mut m = String::from_str("Character ");
                let n = decimal(i as u64);
                m.append(n.as_str());
                m.append(" missing required clip ");
                m.append(clip);
                return Err(m);
            },
            None => {},
        }
        i += 1;
    }
    assert(characters_verdict(characters@, i as int) == Ok::<(), Seq<char>>(()));
    let wclips = weapon_clip_list();
    let sockets = weapon_socket_list();
    let mut k: usize = 0;
    while k < weapons.len()
        invariant
            k <= weapons@.len(),
            wclips@.map_values(|s: &'static str| s@) == weapon_clips(),
            sockets@.map_values(|s: &'static str| s@) == weapon_sockets(),
            forall|q: int| 0 <= q < k ==> weapon_ok(#[trigger] weapons@[q]),
            characters_verdict(characters@, 0) == Ok::<(), Seq<char>>(()),
        decreases weapons@.len() - k,
    {
        let w = &weapons[k];
        if w.scenes == 0 || missing_name(&w.animations, &wclips).is_some() || missing_name(&w.nodes, &sockets).is_some() {
            assert(!weapon_ok(weapons@[k as int]));
            return Err(String::from_str("Weapon export is missing a required scene, named action or socket"));
        }
        k += 1;
    }
    assert(!(exists|q: int| 0 <= q < weapons@.len() && !weapon_ok(weapons@[q])));
    assert(exports_verdict(characters@, weapons@, knives@) == knives_verdict(knives@, 0));
    let kclips = knife_clip_list();
    let mut j: usize = 0;
    while j < 5
        invariant
            j <= 5,
            knives@.len() == 5,
            kclips@.map_values(|s: &'static str| s@) == knife_clips(),
            knives_verdict(knives@, 0) == knives_verdict(knives@, j as int),
            exports_verdict(characters@, weapons@, knives@) == knives_verdict(knives@, 0),
        decreases 5 - j,
    {
        let f = &knives[j];
        assert(*f == knives@[j as int]);
        let label = knife_label_of(j);
        if f.scenes == 0 || (j != 2 && missing_name(&f.animations, &kclips).is_some()) {
            let mut m = String::from_str(label);
            m.append(" export is missing a scene or required knife clip");
            return Err(m);
        }
        if j <= 2 && !has_name(&f.nodes, "KnifeGrip") {
            let mut m = String::from_str(label);
            m.append(" export is missing KnifeGrip");
            return Err(m);
        }
        assert(knife_body_ok(knives@[j as int], j as int) && knife_grip_ok(knives@[j as int], j as int));
        j += 1;
    }
    assert(knives_verdict(knives@, 5) == Ok::<(), Seq<char>>(()));
    Ok(())
}

} // verus!
