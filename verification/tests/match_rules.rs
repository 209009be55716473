use open_strike::config::GameMode;
use open_strike::level::check_map;
use open_strike::matchplay::{
    assign_team, combatant_name, default_spawn_point, human_team, match_over, match_result, placement_point,
    respawn_choice, roster, roster_size, slot_team, spawn_candidates, team_counts, team_skin, Team,
};
use open_strike::skins::SkinId;

#[test]
fn names_and_teams() {
    assert_eq!(combatant_name(0), "YOU");
    assert_eq!(combatant_name(5), "ASH");
    assert_eq!(combatant_name(7), "CEDAR");
    assert_eq!(team_skin(Team::Attacker), SkinId::Soldier);
    assert_eq!(team_skin(Team::Defender), SkinId::Police);
    assert_eq!(human_team(SkinId::Police), Team::Defender);
    assert_eq!(human_team(SkinId::Soldier), Team::Attacker);
    assert_eq!(Team::Attacker.index(), 0);
    assert_eq!(Team::Defender.index(), 1);
}

#[test]
fn rosters_by_mode() {
    assert_eq!(roster_size(&GameMode::TeamDeathmatch), 6);
    assert_eq!(roster_size(&GameMode::Deathmatch), 8);
    assert_eq!(roster_size(&GameMode::Freemode), 1);
    let (a, d) = (Team::Attacker, Team::Defender);
    assert_eq!(roster(&GameMode::TeamDeathmatch, d), vec![d, d, d, a, a, a]);
    assert_eq!(roster(&GameMode::Deathmatch, a), vec![a, d, a, d, a, d, a, d]);
    assert_eq!(roster(&GameMode::Freemode, a), vec![a]);
    assert_eq!(slot_team(&GameMode::Deathmatch, d, 3), a);
    let counts = team_counts(&roster(&GameMode::Deathmatch, a));
    assert_eq!(counts, [4, 4]);
    assert_eq!(counts[0] + counts[1], 8);
}

#[test]
fn joining_players_balance_teams() {
    assert_eq!(assign_team([0, 0]), Team::Attacker);
    assert_eq!(assign_team([2, 1]), Team::Defender);
    assert_eq!(assign_team([1, 2]), Team::Attacker);
}

#[test]
fn spawn_points() {
    let points = vec![Some(Team::Attacker), None, Some(Team::Defender), Some(Team::Attacker), Some(Team::Defender)];
    assert_eq!(spawn_candidates(&points, Team::Attacker), vec![0, 1, 3]);
    assert_eq!(spawn_candidates(&points, Team::Defender), vec![1, 2, 4]);
    assert_eq!(default_spawn_point(&points, Team::Defender, 0), 1);
    assert_eq!(default_spawn_point(&points, Team::Defender, 4), 2);
    let only_attackers = vec![Some(Team::Attacker)];
    assert_eq!(default_spawn_point(&only_attackers, Team::Defender, 2), 0);
    assert_eq!(placement_point(&points, &GameMode::TeamDeathmatch, Team::Attacker, 4), 1);
    assert_eq!(placement_point(&points, &GameMode::Deathmatch, Team::Attacker, 7), 2);
    assert_eq!(respawn_choice(2, 3, 4, 4), 1);
}

#[test]
fn matches_end_by_time_or_score() {
    assert!(match_over(&GameMode::TeamDeathmatch, true, Some(50), [0, 0]));
    assert!(match_over(&GameMode::TeamDeathmatch, false, Some(50), [50, 12]));
    assert!(!match_over(&GameMode::TeamDeathmatch, false, Some(50), [49, 12]));
    assert!(!match_over(&GameMode::TeamDeathmatch, false, None, [499, 12]));
    assert!(!match_over(&GameMode::Deathmatch, true, Some(1), [5, 5]));
    assert_eq!(match_result([3, 1]), "ATTACKERS WIN");
    assert_eq!(match_result([1, 3]), "DEFENDERS WIN");
    assert_eq!(match_result([2, 2]), "DRAW");
}

#[test]
fn maps_are_checked() {
    let team_points = vec![
        Some(Team::Attacker),
        Some(Team::Attacker),
        Some(Team::Attacker),
        Some(Team::Defender),
        Some(Team::Defender),
        Some(Team::Defender),
    ];
    assert_eq!(check_map(&GameMode::Deathmatch, &vec![], 0, &vec![]), Err("Map has no spawn points"));
    assert_eq!(check_map(&GameMode::Deathmatch, &vec![None], 0, &vec![]), Ok(()));
    assert_eq!(check_map(&GameMode::TeamDeathmatch, &team_points, 4, &vec![0, 3]), Ok(()));
    let needs = Err("Team Deathmatch requires navigation and three spawn points per team");
    assert_eq!(check_map(&GameMode::TeamDeathmatch, &team_points, 4, &vec![4]), needs);
    assert_eq!(check_map(&GameMode::TeamDeathmatch, &team_points, 0, &vec![]), needs);
    assert_eq!(check_map(&GameMode::TeamDeathmatch, &team_points[1..].to_vec(), 4, &vec![0]), needs);
}
