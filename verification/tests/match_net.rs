use open_strike::net::receive::{receive, Incoming, Received};
use open_strike::net::client::{replay_effect, EventKind, ReplayEffect};
use open_strike::config::{GameMode, MapId, WeaponId};
use open_strike::game::GameState;
use open_strike::matchplay::Team;
use open_strike::net::client::{replay, snapshot_newer, ConnState, WelcomeSeat};
use open_strike::net::proto::{seq_newer, weapon_code, weapon_from_code, EVENT_HISTORY, PROTOCOL_VERSION};
use open_strike::net::server::{
    accept_input, flag_value, heartbeat_phase, join_decision, lan_display_name, report_entry, seat_name,
    signed_in_accounts, top_kills, JoinDecision, ReportEntry, ServerArgs, ServerNet,
};
use open_strike::net::NetRole;

fn args(list: &[&str]) -> Vec<String> {
    list.iter().map(|s| s.to_string()).collect()
}

#[test]
fn sequence_numbers_wrap() {
    assert!(seq_newer(5, 5));
    assert!(seq_newer(6, 5));
    assert!(!seq_newer(4, 5));
    assert!(seq_newer(2, u32::MAX - 1));
    assert!(!seq_newer(u32::MAX - 1, 2));
    assert!(snapshot_newer(10, None));
    assert!(snapshot_newer(11, Some(10)));
    assert!(!snapshot_newer(9, Some(10)));
}

#[test]
fn weapon_codes_round_trip() {
    for w in WeaponId::all() {
        assert_eq!(weapon_from_code(weapon_code(w)), w);
    }
    assert_eq!(weapon_from_code(250), WeaponId::AK47);
}

#[test]
fn server_arguments() {
    let a = ServerArgs::from_args(&args(&["server"]), "key".into());
    assert_eq!((a.port, a.server_id.as_str(), a.advertise.as_str()), (27015, "srv-27015", "127.0.0.1"));
    assert_eq!((a.mode, a.map, a.bots, a.max_players), (GameMode::Deathmatch, MapId::Dust2, 6, 12));
    assert_eq!((a.time_limit_secs, a.score_limit, a.hub, a.key.as_str()), (600, 40, None, "key"));
    let a = ServerArgs::from_args(
        &args(&[
            "server", "--port", "27020", "--mode", "tdm", "--map", "mirage", "--bots", "2", "--hub",
            "http://hub", "--max-players", "4", "--time-limit", "300", "--score-limit", "10",
        ]),
        String::new(),
    );
    assert_eq!((a.port, a.server_id.as_str()), (27020, "srv-27020"));
    assert_eq!((a.mode, a.map, a.bots, a.max_players), (GameMode::TeamDeathmatch, MapId::Mirage, 2, 4));
    assert_eq!((a.time_limit_secs, a.score_limit, a.hub.as_deref()), (300, 10, Some("http://hub")));
    let a = ServerArgs::from_args(&args(&["s", "--port", "70000", "--mode", "ctf", "--server-id", "x"]), String::new());
    assert_eq!((a.port, a.mode, a.server_id.as_str()), (27015, GameMode::Deathmatch, "x"));
    assert_eq!(flag_value(&args(&["s", "--hub"]), "--hub"), None);
    assert_eq!(flag_value(&args(&["s", "--hub", "a", "--hub", "b"]), "--hub"), Some("a".to_string()));
}

#[test]
fn joins() {
    match join_decision(PROTOCOL_VERSION + 1, false, 0, 8) {
        JoinDecision::Reject(reason) => assert_eq!(reason, "protocol 2, server speaks 1"),
        _ => panic!("expected a rejection"),
    }
    assert!(matches!(join_decision(PROTOCOL_VERSION, true, 8, 8), JoinDecision::Refresh));
    match join_decision(PROTOCOL_VERSION, false, 8, 8) {
        JoinDecision::Reject(reason) => assert_eq!(reason, "match is full"),
        _ => panic!("expected a rejection"),
    }
    assert!(matches!(join_decision(PROTOCOL_VERSION, false, 7, 8), JoinDecision::Admit));
    assert_eq!(lan_display_name("kevin"), "kevin");
    assert_eq!(lan_display_name("abcdefghijklmnopqrstuvwxyz"), "abcdefghijklmnopqrst");
    assert_eq!(seat_name(String::new(), "PLAYER".into()), "PLAYER");
    assert_eq!(seat_name("Kevin".into(), "PLAYER".into()), "Kevin");
    assert!(accept_input(3, 2, true));
    assert!(!accept_input(1, 2, true));
    assert!(accept_input(1, 2, false));
}

#[test]
fn event_history_keeps_the_last_events() {
    let mut net: ServerNet<u32> = ServerNet::new();
    assert_eq!(net.allocate_net_id(), 1);
    assert_eq!(net.allocate_net_id(), 2);
    assert_eq!(net.allocate_slot(), 0);
    assert_eq!(net.advance_tick(), 1);
    for e in 0..(EVENT_HISTORY as u32 + 10) {
        net.push_event(e);
    }
    assert_eq!(net.events().len(), EVENT_HISTORY);
    assert_eq!(net.event_base(), 10);
    assert_eq!(*net.events().front().unwrap(), 10);
    assert_eq!(*net.events().back().unwrap(), EVENT_HISTORY as u32 + 9);
}

#[test]
fn clients_replay_each_event_once() {
    let (first, next) = replay(0, 3, None);
    assert!(first.is_empty());
    assert_eq!(next, 3);
    let (second, next) = replay(1, 4, Some(next));
    assert_eq!(second, vec![2, 3]);
    assert_eq!(next, 5);
    let (again, same) = replay(1, 4, Some(next));
    assert!(again.is_empty());
    assert_eq!(same, 5);
    let (wrapped, next) = replay(u32::MAX, 3, Some(u32::MAX));
    assert_eq!(wrapped, vec![0, 1, 2]);
    assert_eq!(next, 2);
}

#[test]
fn connection_states() {
    let seat = WelcomeSeat { net_id: 4, slot: 1, team: Team::Defender };
    let mut conn = ConnState::Connecting;
    assert!(!conn.welcomed());
    assert_eq!(conn.my_net_id(), 0);
    conn.on_welcome(seat);
    assert!(conn.welcomed());
    assert_eq!(conn.welcome(), Some(seat));
    assert_eq!(conn.my_net_id(), 4);
    conn.on_rejected("late".into());
    assert!(conn.rejected().is_none());
    let mut refused = ConnState::Connecting;
    refused.on_rejected("match is full".into());
    assert_eq!(refused.rejected().as_deref(), Some("match is full"));
    assert!(NetRole::Client.is_client());
    assert!(NetRole::Server.online());
    assert!(!NetRole::Local.online());
}

#[test]
fn match_reports() {
    assert_eq!(heartbeat_phase(GameState::Playing), "live");
    assert_eq!(heartbeat_phase(GameState::Finished), "finished");
    assert_eq!(heartbeat_phase(GameState::Loading), "warmup");
    assert_eq!(signed_in_accounts(&vec![0, 4, 0, 9]), vec![4, 9]);
    assert_eq!(top_kills(&vec![3, 9, 2]), 9);
    assert_eq!(top_kills(&vec![]), 0);
    assert_eq!(report_entry(0, 3, 1, 3), None);
    assert_eq!(report_entry(4, 9, 1, 9), Some(ReportEntry { account_id: 4, kills: 9, deaths: 1, won: true }));
    assert_eq!(report_entry(4, 0, 1, 0), Some(ReportEntry { account_id: 4, kills: 0, deaths: 1, won: false }));
}

#[test]
fn overlapping_snapshots_never_replay_twice() {
    // Events 10..14, then a snapshot carrying 12..17: only 15, 16 and 17 are new.
    let (first, next) = replay(10, 5, Some(10));
    assert_eq!(first, vec![0, 1, 2, 3, 4]);
    assert_eq!(next, 15);
    let (second, next) = replay(12, 6, Some(next));
    assert_eq!(second, vec![3, 4, 5]);
    assert_eq!(next, 18);
    // Across the wrap of the sequence space.
    let (_, next) = replay(u32::MAX - 1, 2, Some(u32::MAX - 1));
    assert_eq!(next, 0);
    assert_eq!(replay(u32::MAX, 3, Some(next)), (vec![1, 2], 2));
}

#[test]
fn receive_loop_keeps_seat_and_newest_snapshot() {
    let seat = WelcomeSeat { net_id: 7, slot: 2, team: Team::Defender };
    let mut state = Received { conn: ConnState::Connecting, latest: None, dirty: false, finished: None, last_heard: 0 };
    receive(&mut state, Incoming::Snapshot(40), 100);
    assert_eq!((state.latest, state.dirty, state.last_heard), (Some(40), true, 100));
    receive(&mut state, Incoming::Welcome(seat), 200);
    assert_eq!(state.conn.welcome(), Some(seat));
    assert_eq!(state.last_heard, 200);
    receive(&mut state, Incoming::Welcome(WelcomeSeat { net_id: 9, slot: 0, team: Team::Attacker }), 300);
    receive(&mut state, Incoming::Rejected("full".into()), 300);
    assert_eq!(state.conn.welcome(), Some(seat));
    state.dirty = false;
    receive(&mut state, Incoming::Snapshot(39), 400);
    assert_eq!((state.latest, state.dirty, state.last_heard), (Some(40), false, 200));
    receive(&mut state, Incoming::Snapshot(41), 500);
    assert_eq!(state.latest, Some(41));
    receive(&mut state, Incoming::Finished { result: "Attackers win".into(), score: [50, 12] }, 600);
    assert_eq!(state.finished, Some(("Attackers win".to_string(), [50, 12])));
    let mut refused = Received { conn: ConnState::Connecting, latest: None, dirty: false, finished: None, last_heard: 0 };
    receive(&mut refused, Incoming::Rejected("full".into()), 10);
    assert_eq!(refused.conn.rejected(), Some("full".to_string()));
    assert_eq!(refused.last_heard, 0);
}

#[test]
fn replayed_events_and_own_shots() {
    assert_eq!(replay_effect(EventKind::Kill, 3), ReplayEffect::KillNotice);
    assert_eq!(replay_effect(EventKind::Shot(4), 3), ReplayEffect::ShotFired);
    assert_eq!(replay_effect(EventKind::Shot(3), 3), ReplayEffect::Skipped);
    assert_eq!(replay_effect(EventKind::Joined, 3), ReplayEffect::Logged);
    assert_eq!(replay_effect(EventKind::Left, 3), ReplayEffect::Logged);
}

#[test]
fn a_run_of_snapshots_replays_each_event_once() {
    // Snapshots carrying events 0..2, 0..5, 3..8, then 70..75 after a gap.
    let snapshots = [(0u32, 2usize), (0, 5), (3, 5), (70, 5)];
    let mut next = None;
    let mut seen = Vec::new();
    for (base, count) in snapshots {
        let (picked, after) = replay(base, count, next);
        seen.extend(picked.iter().map(|i| base + *i as u32));
        next = Some(after);
    }
    assert_eq!(seen, vec![2, 3, 4, 5, 6, 7, 70, 71, 72, 73, 74]);
    assert_eq!(next, Some(75));
}
