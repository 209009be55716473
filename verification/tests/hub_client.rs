use open_strike::config::{GameMode, MapId};
use open_strike::hub::{
    apply_event, badge_shown, begin_health_check, hub_offline, hub_start, periodic_calls, presence_status,
    profile_initials, row_buttons, same_entries, search_query, settle_search, start_session, submit_login,
    submit_register, Account, Badge, DrawerAction, FormMode, FriendEntry, FriendsState, HubCall, HubError,
    HubForms, HubHealth, HubReply, HubRequest, HubSession, HubState, MatchOffer, Presence, PresenceServer,
    RowKind, StoredHub, FIRST_BACKOFF_SECS, MAX_BACKOFF_SECS,
};

fn account(name: &str) -> Account {
    Account { id: 3, username: name.into(), display_name: name.into(), role: "player".into(), email: None }
}

fn state(session: HubSession) -> HubState {
    HubState {
        session,
        health: HubHealth::default(),
        token: Some("tok".into()),
        username: Some("kevin".into()),
        friends: FriendsState::new(),
        forms: HubForms::new(),
    }
}

fn entry(name: &str, presence_state: &str, server: Option<(&str, &str, &str)>) -> FriendEntry {
    FriendEntry {
        username: name.into(),
        display_name: name.into(),
        presence: Presence {
            state: presence_state.into(),
            server: server.map(|(id, mode, map)| PresenceServer {
                server_id: id.into(),
                mode: mode.into(),
                map: map.into(),
            }),
            last_seen: None,
        },
        relationship: "friends".into(),
    }
}

fn unreachable() -> HubError {
    HubError { code: "unreachable".into(), message: "connection refused".into(), transport: true }
}

fn refused(code: &str, message: &str) -> HubError {
    HubError { code: code.into(), message: message.into(), transport: false }
}

#[test]
fn losing_the_hub_keeps_the_account_and_backs_off() {
    let mut s = state(HubSession::LoggedIn(account("kevin")));
    let calls = apply_event(&mut s, &HubRequest::Friends, Err(unreachable()));
    assert_eq!(s.session, HubSession::Offline(Some(account("kevin"))));
    assert!(!s.health.online);
    assert_eq!(s.health.backoff_secs, 10);
    assert!(matches!(calls.as_slice(), [HubCall::RetryIn(5)]));
    assert_eq!(s.forms.error, None);
    let mut waits = Vec::new();
    for _ in 0..6 {
        let calls = apply_event(&mut s, &HubRequest::Health, Err(unreachable()));
        if let [HubCall::RetryIn(w)] = calls.as_slice() {
            waits.push(*w);
        }
    }
    assert_eq!(waits, vec![10, 20, 40, 60, 60, 60]);
    assert_eq!(s.health.backoff_secs, MAX_BACKOFF_SECS);
}

#[test]
fn unreachable_sessions_by_kind() {
    for (before, after) in [
        (HubSession::NoHub, HubSession::NoHub),
        (HubSession::Connecting, HubSession::Offline(None)),
        (HubSession::LoggedOut, HubSession::Offline(None)),
        (HubSession::Offline(None), HubSession::Offline(None)),
    ] {
        let mut s = state(before);
        apply_event(&mut s, &HubRequest::Me, Err(unreachable()));
        assert_eq!(s.session, after);
    }
}

#[test]
fn unreachable_login_stops_the_form() {
    let mut s = state(HubSession::LoggedOut);
    s.forms.busy = true;
    apply_event(&mut s, &HubRequest::Login, Err(unreachable()));
    assert!(!s.forms.busy);
    assert_eq!(s.forms.error.as_deref(), Some("Hub unreachable, try again"));
    assert_eq!(s.forms.version, 1);
}

#[test]
fn reconnect_signs_in_again() {
    let mut s = state(HubSession::LoggedIn(account("kevin")));
    apply_event(&mut s, &HubRequest::Friends, Err(unreachable()));
    let reply = HubReply { name: Some("Test hub".into()), ..HubReply::default() };
    let calls = apply_event(&mut s, &HubRequest::Health, Ok(reply));
    assert_eq!(s.session, HubSession::Connecting);
    assert!(matches!(calls.as_slice(), [HubCall::Me]));
    assert!(s.health.online);
    assert_eq!(s.health.backoff_secs, FIRST_BACKOFF_SECS);
    assert_eq!(s.health.hub_name, "Test hub");
}

#[test]
fn health_without_token_logs_out() {
    let mut s = state(HubSession::Offline(Some(account("kevin"))));
    s.token = None;
    let calls = apply_event(&mut s, &HubRequest::Health, Ok(HubReply::default()));
    assert_eq!(s.session, HubSession::LoggedOut);
    assert!(calls.is_empty());
    assert_eq!(s.health.hub_name, "");
}

#[test]
fn login_signs_in() {
    let mut s = state(HubSession::LoggedOut);
    s.token = None;
    s.forms.mode = FormMode::Login;
    s.forms.password = "secret-pass".into();
    s.forms.confirm = "secret-pass".into();
    s.forms.busy = true;
    let reply = HubReply {
        session: Some("new-token".into()),
        account: Some(account("kevin")),
        hub_name: Some("Hub".into()),
        first_admin: Some(true),
        ..HubReply::default()
    };
    let calls = apply_event(&mut s, &HubRequest::Login, Ok(reply));
    assert_eq!(s.session, HubSession::LoggedIn(account("kevin")));
    assert_eq!(s.token.as_deref(), Some("new-token"));
    assert_eq!(s.username.as_deref(), Some("kevin"));
    assert_eq!(s.health.hub_name, "Hub");
    assert_eq!(s.forms.mode, FormMode::Idle);
    assert_eq!(s.forms.password, "");
    assert_eq!(s.forms.confirm, "");
    assert!(!s.forms.busy);
    assert_eq!(s.forms.notice.as_deref(), Some("You are the administrator of this hub"));
    assert!(matches!(calls.as_slice(), [HubCall::Persist, HubCall::Friends, HubCall::PresenceInMenu]));
}

#[test]
fn register_without_account_uses_a_placeholder() {
    let mut s = state(HubSession::LoggedOut);
    apply_event(&mut s, &HubRequest::Register, Ok(HubReply::default()));
    match &s.session {
        HubSession::LoggedIn(a) => {
            assert_eq!((a.id, a.username.as_str(), a.display_name.as_str(), a.role.as_str()), (0, "?", "?", "player"));
        }
        other => panic!("unexpected session {other:?}"),
    }
    assert_eq!(s.token, None);
    assert_eq!(s.forms.notice, None);
}

#[test]
fn refused_login_shows_the_message() {
    let mut s = state(HubSession::LoggedOut);
    s.forms.busy = true;
    let calls = apply_event(&mut s, &HubRequest::Login, Err(refused("invalid_credentials", "Wrong username")));
    assert!(!s.forms.busy);
    assert_eq!(s.forms.error.as_deref(), Some("Wrong username"));
    assert!(calls.is_empty());
    assert!(s.health.online);
}

#[test]
fn me_restores_or_expires_the_session() {
    let mut s = state(HubSession::Connecting);
    let reply = HubReply { account: Some(account("cedar")), hub_name: Some("H".into()), ..HubReply::default() };
    let calls = apply_event(&mut s, &HubRequest::Me, Ok(reply));
    assert_eq!(s.session, HubSession::LoggedIn(account("cedar")));
    assert_eq!(s.username.as_deref(), Some("cedar"));
    assert!(matches!(calls.as_slice(), [HubCall::Friends, HubCall::PresenceInMenu]));

    let mut s = state(HubSession::Connecting);
    let calls = apply_event(&mut s, &HubRequest::Me, Err(refused("session_expired", "gone")));
    assert_eq!(s.session, HubSession::LoggedOut);
    assert_eq!(s.token, None);
    assert_eq!(s.forms.notice.as_deref(), Some("Session expired, sign in again"));
    assert!(matches!(calls.as_slice(), [HubCall::Persist, HubCall::Health]));

    let mut s = state(HubSession::Connecting);
    let calls = apply_event(&mut s, &HubRequest::Me, Ok(HubReply::default()));
    assert_eq!(s.session, HubSession::Connecting);
    assert!(calls.is_empty());
}

#[test]
fn logout_clears_friends() {
    let mut s = state(HubSession::LoggedIn(account("kevin")));
    s.friends.friends.push(entry("cedar", "online", None));
    s.friends.version = 4;
    apply_event(&mut s, &HubRequest::Logout, Ok(HubReply::default()));
    assert_eq!(s.session, HubSession::LoggedOut);
    assert!(s.friends.friends.is_empty());
    assert_eq!(s.friends.version, 0);
    assert_eq!(s.forms.version, 1);
}

#[test]
fn friends_update_only_when_changed() {
    let mut s = state(HubSession::LoggedIn(account("kevin")));
    let reply = || HubReply { friends: vec![entry("cedar", "online", None)], ..HubReply::default() };
    apply_event(&mut s, &HubRequest::Friends, Ok(reply()));
    assert_eq!(s.friends.version, 1);
    assert_eq!(s.friends.friends.len(), 1);
    apply_event(&mut s, &HubRequest::Friends, Ok(reply()));
    assert_eq!(s.friends.version, 1);
    let moved = HubReply { friends: vec![entry("cedar", "in_match", None)], ..HubReply::default() };
    apply_event(&mut s, &HubRequest::Friends, Ok(moved));
    assert_eq!(s.friends.version, 2);
    assert_eq!(s.friends.friends[0].presence.state, "in_match");
}

#[test]
fn search_results_and_friend_actions() {
    let mut s = state(HubSession::LoggedIn(account("kevin")));
    let reply = HubReply { results: vec![entry("cedar", "online", None)], ..HubReply::default() };
    apply_event(&mut s, &HubRequest::Search, Ok(reply));
    assert_eq!(s.friends.search_results.len(), 1);
    assert_eq!(s.friends.version, 1);
    let calls = apply_event(&mut s, &HubRequest::FriendRequest("cedar".into()), Ok(HubReply::default()));
    assert!(matches!(calls.as_slice(), [HubCall::Friends]));
    s.friends.search_query_sent = "ced".into();
    let calls = apply_event(&mut s, &HubRequest::Remove("cedar".into()), Err(refused("not_found", "x")));
    match calls.as_slice() {
        [HubCall::Friends, HubCall::Search(q)] => assert_eq!(q, "ced"),
        other => panic!("unexpected calls {other:?}"),
    }
}

#[test]
fn match_replies_become_pending_matches() {
    let mut s = state(HubSession::LoggedIn(account("kevin")));
    s.forms.busy = true;
    let reply = HubReply {
        ticket: Some("t-1".into()),
        server: MatchOffer {
            host: Some("10.0.0.2".into()),
            port: Some(27016),
            mode: None,
            map: Some("mirage".into()),
            server_id: Some("srv-1".into()),
        },
        ..HubReply::default()
    };
    let calls = apply_event(&mut s, &HubRequest::FindMatch(GameMode::Deathmatch), Ok(reply));
    assert!(!s.forms.busy);
    match calls.as_slice() {
        [HubCall::Join(p)] => {
            assert_eq!((p.host.as_str(), p.port, p.ticket.as_str()), ("10.0.0.2", 27016, "t-1"));
            assert_eq!((p.mode, p.map, p.server_id.as_str()), (GameMode::Deathmatch, MapId::Mirage, "srv-1"));
        }
        other => panic!("unexpected calls {other:?}"),
    }
    let reply = HubReply {
        server: MatchOffer { mode: Some("dm".into()), port: Some(65536 + 80), ..MatchOffer::default() },
        ..HubReply::default()
    };
    let calls = apply_event(&mut s, &HubRequest::JoinMatch("srv-2".into()), Ok(reply));
    match calls.as_slice() {
        [HubCall::Join(p)] => {
            assert_eq!((p.host.as_str(), p.port, p.ticket.as_str()), ("127.0.0.1", 80, ""));
            assert_eq!((p.mode, p.map, p.server_id.as_str()), (GameMode::Deathmatch, MapId::Dust2, ""));
        }
        other => panic!("unexpected calls {other:?}"),
    }
    let calls = apply_event(&mut s, &HubRequest::JoinMatch("srv-2".into()), Ok(HubReply::default()));
    match calls.as_slice() {
        [HubCall::Join(p)] => assert_eq!((p.port, p.mode), (27015, GameMode::TeamDeathmatch)),
        other => panic!("unexpected calls {other:?}"),
    }
    s.forms.busy = true;
    apply_event(&mut s, &HubRequest::JoinMatch("srv-3".into()), Err(refused("full", "That match is full")));
    assert!(!s.forms.busy);
    assert_eq!(s.forms.error.as_deref(), Some("That match is full"));
}

#[test]
fn expired_session_on_any_request() {
    let mut s = state(HubSession::LoggedIn(account("kevin")));
    let calls = apply_event(&mut s, &HubRequest::Presence, Err(refused("session_expired", "x")));
    assert_eq!(s.session, HubSession::LoggedOut);
    assert_eq!(s.token, None);
    assert!(matches!(calls.as_slice(), [HubCall::Persist]));
    let mut s = state(HubSession::LoggedIn(account("kevin")));
    let calls = apply_event(&mut s, &HubRequest::Presence, Err(refused("bad", "x")));
    assert_eq!(s.session, HubSession::LoggedIn(account("kevin")));
    assert!(calls.is_empty());
}

#[test]
fn login_form_checks() {
    let mut forms = HubForms::new();
    forms.identifier = "   ".into();
    forms.password = "pw".into();
    assert_eq!(submit_login(&mut forms), None);
    assert_eq!(forms.error.as_deref(), Some("Enter your username or email and password"));
    assert_eq!(forms.version, 1);
    forms.identifier = "  kevin ".into();
    assert_eq!(submit_login(&mut forms).as_deref(), Some("kevin"));
    assert!(forms.busy);
    assert_eq!(forms.error, None);
    assert_eq!(forms.version, 2);
}

#[test]
fn register_form_checks() {
    let mut forms = HubForms::new();
    forms.username = "kevin".into();
    forms.password = "open-strike".into();
    assert_eq!(submit_register(&mut forms), None);
    assert_eq!(forms.error.as_deref(), Some("Fill in username, email and password"));
    forms.email = " kevin@example.com ".into();
    forms.confirm = "open-strik".into();
    assert_eq!(submit_register(&mut forms), None);
    assert_eq!(forms.error.as_deref(), Some("Passwords do not match"));
    assert!(!forms.busy);
    forms.confirm = "open-strike".into();
    assert_eq!(submit_register(&mut forms), Some(("kevin".to_string(), "kevin@example.com".to_string())));
    assert!(forms.busy);
    assert_eq!(forms.version, 3);
}

#[test]
fn searching() {
    assert_eq!(search_query("ce d@r!_1"), "cedr_1");
    let mut forms = HubForms::new();
    let mut friends = FriendsState::new();
    forms.search = "  ce ".into();
    assert_eq!(settle_search(&forms, &mut friends).as_deref(), Some("ce"));
    assert_eq!(friends.search_query_sent, "ce");
    friends.search_results.push(entry("cedar", "online", None));
    forms.search = " c ".into();
    assert_eq!(settle_search(&forms, &mut friends), None);
    assert_eq!(friends.search_query_sent, "");
    assert!(friends.search_results.is_empty());
    assert_eq!(friends.version, 1);
}

#[test]
fn profile_badges() {
    assert_eq!(profile_initials(&HubSession::LoggedIn(account("kevin"))), "KE");
    assert_eq!(profile_initials(&HubSession::Offline(Some(account("é")))), "É");
    assert_eq!(profile_initials(&HubSession::LoggedOut), "—");
    let mut health = HubHealth::default();
    let mut friends = FriendsState::new();
    friends.pending_in.push(entry("cedar", "online", None));
    let session = HubSession::LoggedIn(account("kevin"));
    assert!(badge_shown(Badge::Requests, &session, &health, &friends));
    assert!(!badge_shown(Badge::Offline, &session, &health, &friends));
    health.online = false;
    assert!(hub_offline(&session, &health));
    assert!(badge_shown(Badge::Offline, &session, &health, &friends));
    assert!(!badge_shown(Badge::Requests, &session, &health, &friends));
    assert!(!hub_offline(&HubSession::NoHub, &health));
}

#[test]
fn presence_lines() {
    let playing = entry("cedar", "in_match", Some(("srv-1", "tdm", "dust2")));
    assert_eq!(presence_status(&playing.presence, true), "In match · Dust 2 Team Deathmatch");
    let odd = entry("cedar", "in_match", Some(("srv-1", "x", "y")));
    assert_eq!(presence_status(&odd.presence, true), "In match ·  match");
    assert_eq!(presence_status(&playing.presence, false), "unknown");
    assert_eq!(presence_status(&entry("a", "in_menu", None).presence, true), "Online");
    assert_eq!(presence_status(&entry("a", "online", None).presence, true), "Online");
    assert_eq!(presence_status(&entry("a", "in_match", None).presence, true), "In match");
    assert_eq!(presence_status(&entry("a", "offline", None).presence, true), "Offline");
}

#[test]
fn row_buttons_by_kind() {
    let playing = entry("cedar", "in_match", Some(("srv-1", "tdm", "dust2")));
    let b = row_buttons(playing.clone(), true, RowKind::Friend);
    assert_eq!(b.len(), 2);
    assert_eq!((b[0].action.clone(), b[0].label, b[0].enabled), (DrawerAction::Join("srv-1".into()), "JOIN", true));
    assert_eq!((b[1].action.clone(), b[1].label), (DrawerAction::Remove("cedar".into()), "×"));
    let b = row_buttons(entry("a", "online", None), false, RowKind::PendingIn);
    assert_eq!((b[0].label, b[0].enabled, b[1].label), ("ACCEPT", false, "×"));
    let b = row_buttons(entry("a", "online", None), true, RowKind::PendingOut);
    assert_eq!((b.len(), b[0].label, b[0].enabled), (1, "SENT", false));
    let mut search = entry("a", "online", None);
    for (rel, label) in [("friends", "FRIENDS"), ("pending_out", "SENT"), ("pending_in", "ACCEPT"), ("none", "ADD")] {
        search.relationship = rel.into();
        assert_eq!(row_buttons(search.clone(), true, RowKind::Search)[0].label, label);
    }
}

#[test]
fn entries_compare_by_content() {
    let a = vec![entry("a", "online", None)];
    assert!(same_entries(&a, &vec![entry("a", "online", None)]));
    assert!(!same_entries(&a, &vec![entry("a", "offline", None)]));
    assert!(!same_entries(&a, &vec![]));
}

#[test]
fn start_up() {
    assert!(hub_start(None, None).is_none());
    assert!(hub_start(Some(String::new()), None).is_none());
    let stored = StoredHub { url: "http://hub:8787/".into(), session: Some("t".into()), username: Some("kevin".into()) };
    let start = hub_start(None, Some(stored.clone())).unwrap();
    assert_eq!((start.url.as_str(), start.token.as_deref(), start.username.as_deref()), ("http://hub:8787", Some("t"), Some("kevin")));
    let other = hub_start(Some("http://other//".into()), Some(stored.clone())).unwrap();
    assert_eq!((other.url.as_str(), other.token, other.username), ("http://other", None, None));
    assert!(hub_start(Some(String::new()), Some(stored)).is_none());
    let (session, call) = start_session(&Some("t".into()));
    assert!(matches!((session, call), (HubSession::Connecting, HubCall::Me)));
    let (session, call) = start_session(&None);
    assert!(matches!((session, call), (HubSession::LoggedOut, HubCall::Health)));
}

#[test]
fn health_checks_and_refreshes() {
    let mut health = HubHealth::default();
    assert!(!begin_health_check(&mut health, true));
    health.online = false;
    assert!(!begin_health_check(&mut health, false));
    assert!(begin_health_check(&mut health, true));
    assert!(health.checking);
    assert!(!begin_health_check(&mut health, true));
    let up = HubHealth::default();
    let session = HubSession::LoggedIn(account("kevin"));
    let calls = periodic_calls(&session, &up, true, true, true);
    assert!(matches!(calls.as_slice(), [HubCall::Friends, HubCall::PresenceInMenu]));
    let calls = periodic_calls(&session, &up, true, true, false);
    assert!(matches!(calls.as_slice(), [HubCall::PresenceOnline]));
    assert!(periodic_calls(&HubSession::LoggedOut, &up, true, true, true).is_empty());
    assert!(periodic_calls(&session, &health, true, true, true).is_empty());
}
