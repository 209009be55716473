use open_strike::strike_hub::{
    accept_result, api_error, apply_report, ban_until, bearer_token, bootstrap_message, check_registration,
    check_unclaimed, classify_friendship, consume_ticket, default_hub_url, find_open_server,
    first_account_role, friend_request_decision, heartbeat_presence, join_check, login_decision, login_key, prepare_registration,
    presence_view, relationship, reported_presence, request_answer, require_role, require_server_key,
    role_change_check, search_query, session_error, session_verdict, spawned_server_id, ticket_verdict,
    validate_password, validate_username, FriendList, FriendRequestOutcome, LoginRow, PresenceRow,
    PresenceView, Relationship, ServerRow, SessionVerdict, Stats, TicketRow, PRESENCE_TTL,
};

#[test]
fn usernames_follow_the_rules() {
    assert!(validate_username("kevin_01").is_ok());
    assert!(validate_username("abc").is_ok());
    assert!(validate_username("a234567890123456789b").is_ok());
    let err = validate_username("ab").unwrap_err();
    assert_eq!(err.status, 400);
    assert_eq!(err.code, "invalid_username");
    assert_eq!(err.message, "Usernames are 3 to 20 letters, digits or underscores");
    assert!(validate_username("a2345678901234567890x").is_err());
    assert!(validate_username("bad name").is_err());
    assert!(validate_username("Admin").is_err());
    assert!(validate_username("SYSTEM").is_err());
    assert!(validate_username("admins").is_ok());
}

#[test]
fn passwords_follow_the_rules() {
    assert!(validate_password("correct horse", "kevin").is_ok());
    let short = validate_password("short", "kevin").unwrap_err();
    assert_eq!(short.code, "weak_password");
    assert_eq!(short.message, "Passwords are 8 to 128 characters");
    let named = validate_password("my-KEVIN-pass", "kevin").unwrap_err();
    assert_eq!(named.message, "Password must not contain the username");
    assert!(validate_password(&"x".repeat(129), "kevin").is_err());
    assert!(validate_password(&"x".repeat(128), "kevin").is_ok());
}

#[test]
fn registration_checks_in_order() {
    assert_eq!(check_registration("kevin", "  Kevin@Example.COM ", "open-strike-demo").unwrap(), "kevin@example.com");
    assert_eq!(check_registration("k", "bad", "x").unwrap_err().code, "invalid_username");
    let email = check_registration("kevin", "a@b", "open-strike-demo").unwrap_err();
    assert_eq!((email.status, email.code, email.message.as_str()), (400, "invalid_email", "Enter a valid email"));
    assert_eq!(check_registration("kevin", "kevin.example.com", "open-strike-demo").unwrap_err().code, "invalid_email");
    assert_eq!(check_registration("kevin", "kevin@example.com", "kevin123456").unwrap_err().code, "weak_password");
}

#[test]
fn first_account_is_admin() {
    assert_eq!(first_account_role(0), "admin");
    assert_eq!(first_account_role(1), "player");
    assert_eq!(first_account_role(42), "player");
}

#[test]
fn unclaimed_checks_username_first() {
    let both = check_unclaimed(true, true).unwrap_err();
    assert_eq!((both.status, both.code), (409, "username_taken"));
    assert_eq!(both.message, "That username is taken");
    let email = check_unclaimed(false, true).unwrap_err();
    assert_eq!(email.code, "email_taken");
    assert_eq!(email.message, "That email already has an account");
    assert!(check_unclaimed(false, false).is_ok());
}

#[test]
fn roles_and_server_keys() {
    assert!(require_role("admin", &vec!["moderator", "admin"]).is_ok());
    let e = require_role("player", &vec!["moderator", "admin"]).unwrap_err();
    assert_eq!((e.status, e.code, e.message.as_str()), (403, "forbidden", "Not allowed"));
    assert!(require_server_key("k1", "k1").is_ok());
    let e = require_server_key("k2", "k1").unwrap_err();
    assert_eq!(e.message, "Bad server key");
}

#[test]
fn bearer_header() {
    assert_eq!(bearer_token(Some("Bearer abc")), Some("abc"));
    assert_eq!(bearer_token(Some("Bearer ")), Some(""));
    assert_eq!(bearer_token(Some("Basic abc")), None);
    assert_eq!(bearer_token(Some("Bearer")), None);
    assert_eq!(bearer_token(None), None);
}

#[test]
fn session_verdicts_and_errors() {
    assert_eq!(session_verdict(None, None, 100), SessionVerdict::Unknown);
    assert_eq!(session_verdict(Some(99), None, 100), SessionVerdict::Expired);
    assert_eq!(session_verdict(Some(100), None, 100), SessionVerdict::Valid);
    assert_eq!(session_verdict(Some(200), Some(150), 100), SessionVerdict::Banned);
    assert_eq!(session_verdict(Some(200), Some(100), 100), SessionVerdict::Valid);
    assert!(session_error(SessionVerdict::Valid).is_none());
    let banned = session_error(SessionVerdict::Banned).unwrap();
    assert_eq!((banned.status, banned.code, banned.message.as_str()), (403, "banned", "This account is banned"));
    let expired = session_error(SessionVerdict::Expired).unwrap();
    assert_eq!((expired.status, expired.code), (401, "session_expired"));
    assert_eq!(expired.message, "Session expired, sign in again");
    assert_eq!(session_error(SessionVerdict::Unknown).unwrap().code, "session_expired");
}

#[test]
fn login_keys() {
    assert_eq!(login_key("  Kevin "), (false, "kevin".to_string()));
    assert_eq!(login_key("Kevin@Example.com"), (true, "kevin@example.com".to_string()));
}

fn login_row(banned: Option<i64>, reason: Option<&str>) -> LoginRow {
    LoginRow {
        id: 7,
        password_hash: prepare_registration("kevin", "kevin@example.com", "open-strike-demo").expect("hash").1,
        banned_until: banned,
        ban_reason: reason.map(|r| r.to_string()),
    }
}

#[test]
fn login_with_the_right_password() {
    assert_eq!(login_decision(Some(login_row(None, None)), "open-strike-demo", 100).unwrap(), 7);
}

#[test]
fn login_with_a_wrong_password() {
    let wrong = login_decision(Some(login_row(None, None)), "wrong-password", 100).unwrap_err();
    assert_eq!((wrong.status, wrong.code), (401, "invalid_credentials"));
    assert_eq!(wrong.message, "Wrong username, email or password");
}

#[test]
fn login_without_an_account() {
    let missing = login_decision(None, "open-strike-demo", 100).unwrap_err();
    assert_eq!(missing.code, "invalid_credentials");
}

#[test]
fn login_while_banned() {
    let banned = login_decision(Some(login_row(Some(500), Some("cheating"))), "open-strike-demo", 100).unwrap_err();
    assert_eq!((banned.status, banned.code, banned.message.as_str()), (403, "banned", "cheating"));
    assert_eq!(banned.until, Some(500));
}

#[test]
fn login_while_banned_without_reason() {
    let banned = login_decision(Some(login_row(Some(500), None)), "open-strike-demo", 100).unwrap_err();
    assert_eq!(banned.message, "Banned");
}

#[test]
fn login_after_a_ban() {
    assert_eq!(login_decision(Some(login_row(Some(50), None)), "open-strike-demo", 100).unwrap(), 7);
}

#[test]
fn relationships() {
    assert_eq!(relationship(1, None), Relationship::NoRelation);
    assert_eq!(relationship(1, Some((2, "accepted"))), Relationship::Friends);
    assert_eq!(relationship(1, Some((2, "blocked"))), Relationship::Blocked);
    assert_eq!(relationship(1, Some((1, "pending"))), Relationship::PendingOut);
    assert_eq!(relationship(1, Some((2, "pending"))), Relationship::PendingIn);
    assert_eq!(Relationship::NoRelation.key(), "none");
    assert_eq!(Relationship::PendingOut.key(), "pending_out");
    assert_eq!(classify_friendship(1, 1, 2, "pending"), (2, FriendList::PendingOut));
    assert_eq!(classify_friendship(1, 3, 1, "pending"), (3, FriendList::PendingIn));
    assert_eq!(classify_friendship(1, 3, 1, "accepted"), (3, FriendList::Friends));
}

#[test]
fn friend_requests() {
    let e = friend_request_decision(1, None, Relationship::NoRelation).unwrap_err();
    assert_eq!((e.status, e.code, e.message.as_str()), (404, "not_found", "No such player"));
    let e = friend_request_decision(1, Some(1), Relationship::NoRelation).unwrap_err();
    assert_eq!((e.status, e.code, e.message.as_str()), (400, "invalid", "That is you"));
    assert_eq!(friend_request_decision(1, Some(2), Relationship::NoRelation).unwrap(), FriendRequestOutcome::Requested);
    assert_eq!(friend_request_decision(1, Some(2), Relationship::PendingIn).unwrap(), FriendRequestOutcome::Accepted);
    assert_eq!(
        friend_request_decision(1, Some(2), Relationship::Friends).unwrap(),
        FriendRequestOutcome::Unchanged(Relationship::Friends)
    );
    assert_eq!(request_answer(FriendRequestOutcome::Requested), Relationship::PendingOut);
    assert_eq!(request_answer(FriendRequestOutcome::Accepted), Relationship::Friends);
    assert_eq!(request_answer(FriendRequestOutcome::Unchanged(Relationship::Blocked)), Relationship::Blocked);
    assert_eq!(accept_result(1).unwrap(), Relationship::Friends);
    let e = accept_result(0).unwrap_err();
    assert_eq!(e.message, "No pending request from that player");
}

#[test]
fn presence_views() {
    assert!(matches!(presence_view(None, None, 100), PresenceView::Unknown));
    let fresh = PresenceRow { state: "in_match".into(), server_id: Some("srv-1".into()), updated_at: 50 };
    match presence_view(Some(fresh), Some(("dm".into(), "dust2".into())), 100) {
        PresenceView::Fresh { state, server } => {
            assert_eq!(state, "in_match");
            assert_eq!(server, Some(("srv-1".to_string(), "dm".to_string(), "dust2".to_string())));
        }
        _ => panic!("expected fresh presence"),
    }
    let unlisted = PresenceRow { state: "in_match".into(), server_id: Some("srv-1".into()), updated_at: 50 };
    match presence_view(Some(unlisted), None, 100) {
        PresenceView::Fresh { server, .. } => assert_eq!(server, None),
        _ => panic!("expected fresh presence"),
    }
    let stale = PresenceRow { state: "online".into(), server_id: None, updated_at: 10 };
    assert!(matches!(presence_view(Some(stale), None, 10 + PRESENCE_TTL), PresenceView::Stale { last_seen: 10 }));
}

#[test]
fn presence_reports_and_heartbeats() {
    assert_eq!(reported_presence(None, "online"), ("online".to_string(), None));
    let in_match = Some(("in_match".to_string(), Some("srv".to_string())));
    assert_eq!(reported_presence(in_match.clone(), "online"), ("in_match".to_string(), Some("srv".to_string())));
    assert_eq!(reported_presence(in_match.clone(), "in_menu"), ("in_menu".to_string(), None));
    assert_eq!(
        heartbeat_presence(None, true, "srv"),
        Some(("in_match".to_string(), Some("srv".to_string())))
    );
    assert_eq!(heartbeat_presence(in_match.clone(), false, "srv"), Some(("online".to_string(), None)));
    assert_eq!(heartbeat_presence(in_match.clone(), false, "other"), in_match);
    assert_eq!(heartbeat_presence(None, false, "srv"), None);
}

#[test]
fn search_queries() {
    assert_eq!(search_query("  KeV "), Some("kev".to_string()));
    assert_eq!(search_query("k"), None);
    assert_eq!(search_query("a@b"), None);
}

#[test]
fn tickets_are_single_use() {
    let t = TicketRow { account_id: 9, expires_at: 200, consumed_at: None };
    assert_eq!(ticket_verdict(Some(t), 100).unwrap(), 9);
    let used = consume_ticket(t, 120);
    assert_eq!(used.consumed_at, Some(120));
    let e = ticket_verdict(Some(used), 130).unwrap_err();
    assert_eq!((e.status, e.code, e.message.as_str()), (410, "code_expired", "Ticket already used or expired"));
    assert_eq!(ticket_verdict(Some(t), 201).unwrap_err().code, "code_expired");
    let e = ticket_verdict(None, 100).unwrap_err();
    assert_eq!((e.status, e.code), (404, "not_found"));
}

fn server(id: &str, mode: &str, phase: &str, players: i64) -> ServerRow {
    ServerRow {
        server_id: id.into(),
        host: "127.0.0.1".into(),
        port: 27015,
        mode: mode.into(),
        map: "dust2".into(),
        phase: phase.into(),
        players,
        max_players: 8,
    }
}

#[test]
fn open_servers() {
    let rows = vec![
        server("a", "tdm", "playing", 2),
        server("b", "dm", "finished", 1),
        server("c", "dm", "playing", 8),
        server("d", "dm", "playing", 3),
        server("e", "dm", "lobby", 0),
    ];
    assert_eq!(find_open_server(&rows, "dm"), Some(3));
    assert_eq!(find_open_server(&rows, "tdm"), Some(0));
    assert_eq!(find_open_server(&rows, "free"), None);
    assert!(join_check(true, 3, 8).is_ok());
    assert_eq!(join_check(true, 8, 8).unwrap_err().code, "full");
    assert_eq!(join_check(false, 0, 8).unwrap_err().message, "That match is no longer running");
}

#[test]
fn role_changes_keep_an_admin() {
    assert!(role_change_check("moderator", "player", 1).is_ok());
    assert_eq!(role_change_check("owner", "player", 1).unwrap_err().code, "invalid");
    let e = role_change_check("player", "admin", 1).unwrap_err();
    assert_eq!((e.status, e.code, e.message.as_str()), (409, "last_admin", "Cannot demote the last admin"));
    assert!(role_change_check("player", "admin", 2).is_ok());
    assert!(role_change_check("admin", "admin", 1).is_ok());
}

#[test]
fn bans_and_ids() {
    assert_eq!(ban_until(1000, Some(2)), 1000 + 7200);
    assert_eq!(ban_until(0, None), 24 * 365 * 100 * 3600);
    assert_eq!(spawned_server_id(27016, "abcdef0123"), "srv-27016-abcdef");
    assert_eq!(default_hub_url("0.0.0.0:8787"), "http://127.0.0.1:8787");
    assert_eq!(default_hub_url("8787"), "http://127.0.0.1:8787");
    assert_eq!(bootstrap_message(1), "promoted");
    assert_eq!(bootstrap_message(0), "no such account");
}

#[test]
fn reports_add_up() {
    let s = Stats { kills: 3, deaths: 2, matches: 1, wins: 0 };
    assert_eq!(apply_report(s, 5, 1, true), Stats { kills: 8, deaths: 3, matches: 2, wins: 1 });
    assert_eq!(apply_report(s, 0, 4, false), Stats { kills: 3, deaths: 6, matches: 2, wins: 0 });
}

#[test]
fn error_values() {
    let e = api_error(418, "teapot", "short and stout");
    assert_eq!((e.status, e.code, e.message.as_str(), e.until), (418, "teapot", "short and stout", None));
}

#[test]
fn registration_hashes_the_password() {
    let (email, hash) = prepare_registration("Kevin", " Kevin@Example.com", "open-strike-demo").expect("registered");
    assert_eq!(email, "kevin@example.com");
    assert!(hash.starts_with("$argon2"));
    let row = LoginRow { id: 3, password_hash: hash.clone(), banned_until: None, ban_reason: None };
    assert_eq!(login_decision(Some(row), "open-strike-demo", 0).unwrap(), 3);
    let row = LoginRow { id: 3, password_hash: hash, banned_until: None, ban_reason: None };
    assert!(login_decision(Some(row), "open-strike-dem0", 0).is_err());
}

#[test]
fn registration_salts_each_hash() {
    let (_, a) = prepare_registration("kevin", "k@example.com", "open-strike-demo").expect("registered");
    let (_, b) = prepare_registration("kevin", "k@example.com", "open-strike-demo").expect("registered");
    assert_ne!(a, b);
    assert_eq!(prepare_registration("k", "k@example.com", "open-strike-demo").unwrap_err().code, "invalid_username");
    assert_eq!(prepare_registration("kevin", "k@x", "open-strike-demo").unwrap_err().code, "invalid_email");
    assert_eq!(prepare_registration("kevin", "k@example.com", "short").unwrap_err().code, "weak_password");
}

#[test]
fn unparsable_hashes_accept_nothing() {
    let row = LoginRow { id: 3, password_hash: "not a hash".into(), banned_until: None, ban_reason: None };
    assert_eq!(login_decision(Some(row), "not a hash", 0).unwrap_err().code, "invalid_credentials");
}

#[test]
fn registration_errors_carry_status_and_message() {
    let user = prepare_registration("k", "kevin@example.com", "open-strike-demo").unwrap_err();
    assert_eq!((user.status, user.code), (400, "invalid_username"));
    assert_eq!(user.message, "Usernames are 3 to 20 letters, digits or underscores");
    let short = check_registration("kevin", "kevin@example.com", "short").unwrap_err();
    assert_eq!((short.status, short.code), (400, "weak_password"));
    assert_eq!(short.message, "Passwords are 8 to 128 characters");
    let contains = prepare_registration("kevin", "kevin@example.com", "KEVIN-rocks-1").unwrap_err();
    assert_eq!((contains.status, contains.code), (400, "weak_password"));
    assert_eq!(contains.message, "Password must not contain the username");
    let longest = "p".repeat(128);
    assert!(prepare_registration("kevin", "kevin@example.com", &longest).is_ok());
}
