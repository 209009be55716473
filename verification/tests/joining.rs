use open_strike::config::{GameConfig, GameMode, MapId};
use open_strike::game::GameState;
use open_strike::hub::{join_name, join_pending, profile_lines, Account, HubForms, HubHealth, HubSession, PendingMatch};
use open_strike::matchplay::Team;
use open_strike::net::client::{beat, leaves_server, lost_connection, Beat, ConnState, WelcomeSeat};
use open_strike::net::server::{configure_match, shutdown_due, ServerArgs};
use open_strike::net::NetRole;

fn account(name: &str) -> Account {
    Account { id: 9, username: name.into(), display_name: name.into(), role: "player".into(), email: None }
}

fn pending() -> PendingMatch {
    PendingMatch {
        host: "10.0.0.2".into(),
        port: 27016,
        ticket: "t".into(),
        mode: GameMode::Deathmatch,
        map: MapId::Mirage,
        server_id: "srv-1".into(),
    }
}

fn seated() -> ConnState {
    ConnState::Welcomed(WelcomeSeat { net_id: 4, slot: 1, team: Team::Attacker })
}

#[test]
fn home_profile_lines() {
    let mut health = HubHealth::default();
    assert_eq!(
        profile_lines(&HubSession::NoHub, &health),
        ("LOCAL PLAYER".to_string(), "DUST 2".to_string())
    );
    assert_eq!(
        profile_lines(&HubSession::LoggedIn(account("kevin")), &health),
        ("KEVIN".to_string(), "ONLINE".to_string())
    );
    health.hub_name = "Strike Hub".into();
    assert_eq!(
        profile_lines(&HubSession::LoggedIn(account("kevin")), &health),
        ("KEVIN".to_string(), "STRIKE HUB".to_string())
    );
    assert_eq!(
        profile_lines(&HubSession::Offline(Some(account("ana"))), &health),
        ("ANA".to_string(), "HUB OFFLINE".to_string())
    );
    assert_eq!(profile_lines(&HubSession::Offline(None), &health).0, "LOCAL PLAYER");
}

#[test]
fn joining_an_offered_match() {
    assert_eq!(join_name(Some("kevin")), "kevin");
    assert_eq!(join_name(None), "PLAYER");
    let mut config = GameConfig::default();
    let mut role = NetRole::Local;
    let mut forms = HubForms::new();
    assert!(join_pending(&pending(), Ok(()), &mut config, &mut role, &mut forms));
    assert_eq!(config.mode, GameMode::Deathmatch);
    assert_eq!(config.map, MapId::Mirage);
    assert_eq!(role, NetRole::Client);
    assert_eq!(forms.version, 0);

    let mut config = GameConfig::default();
    let mut role = NetRole::Local;
    assert!(!join_pending(&pending(), Err("refused".into()), &mut config, &mut role, &mut forms));
    assert_eq!(config.mode, GameMode::TeamDeathmatch);
    assert_eq!(role, NetRole::Local);
    assert_eq!(forms.error.as_deref(), Some("Could not open a connection: refused"));
    assert_eq!(forms.version, 1);
}

#[test]
fn server_takes_its_match_from_the_command_line() {
    let args = ServerArgs::from_args(
        &["strike-server", "--mode", "free", "--map", "mirage", "--time-limit", "90", "--score-limit", "7"]
            .iter()
            .map(|s| s.to_string())
            .collect(),
        "k".into(),
    );
    let mut config = GameConfig::default();
    configure_match(&mut config, &args);
    assert_eq!(config.mode, GameMode::Freemode);
    assert_eq!(config.map, MapId::Mirage);
    assert_eq!(config.match_settings.time_limit_secs, Some(90));
    assert_eq!(config.match_settings.score_limit, Some(7));
    assert_eq!(config.match_settings.respawn_secs, 3);
}

#[test]
fn finished_server_exits_after_grace() {
    let mut finished_at = None;
    assert!(!shutdown_due(&mut finished_at, 5_000));
    assert_eq!(finished_at, Some(5_000));
    assert!(!shutdown_due(&mut finished_at, 17_000));
    assert!(shutdown_due(&mut finished_at, 17_001));
    assert_eq!(finished_at, Some(5_000));
}

#[test]
fn client_beat() {
    let mut last = 0;
    let mut started = None;
    assert_eq!(beat(&ConnState::Connecting, false, 400, &mut last, &mut started), Beat::Quiet);
    assert_eq!(started, None);
    assert_eq!(beat(&ConnState::Connecting, false, 600, &mut last, &mut started), Beat::Join);
    assert_eq!((last, started), (600, Some(600)));
    assert_eq!(beat(&ConnState::Connecting, false, 1200, &mut last, &mut started), Beat::Join);
    assert_eq!((last, started), (1200, Some(600)));
    assert_eq!(beat(&seated(), false, 1800, &mut last, &mut started), Beat::Ping);
    assert_eq!(beat(&seated(), true, 2400, &mut last, &mut started), Beat::Quiet);
    assert_eq!(last, 2400);
    assert_eq!(beat(&ConnState::Rejected("full".into()), false, 3000, &mut last, &mut started), Beat::Quiet);
}

#[test]
fn client_notices_lost_connection_once() {
    let mut reason = None;
    assert!(!lost_connection(&seated(), GameState::Playing, 15_000, 0, None, &mut reason));
    assert!(lost_connection(&seated(), GameState::Playing, 15_001, 0, None, &mut reason));
    assert_eq!(reason.as_deref(), Some("Lost connection to the match server"));
    assert!(!lost_connection(&seated(), GameState::Playing, 30_000, 0, None, &mut reason));

    let mut reason = None;
    assert!(!lost_connection(&ConnState::Connecting, GameState::Loading, 50_000, 0, None, &mut reason));
    assert!(!lost_connection(&ConnState::Connecting, GameState::Loading, 45_000, 0, Some(0), &mut reason));
    assert!(lost_connection(&ConnState::Connecting, GameState::Loading, 45_001, 0, Some(0), &mut reason));
    let mut reason = None;
    assert!(!lost_connection(&ConnState::Rejected("x".into()), GameState::Loading, 90_000, 0, Some(0), &mut reason));
    assert!(!lost_connection(&seated(), GameState::MainMenu, 90_000, 0, None, &mut reason));
    assert!(leaves_server(true, &None));
    assert!(leaves_server(false, &Some("gone".into())));
    assert!(!leaves_server(false, &None));
}
