use open_strike::config::GameMode;
use open_strike::game::GameState;
use open_strike::hub::{
    drawer_input, drawer_open, DrawerFlags, drawer_action, drawer_view, field_submit, hub_label, Account, DrawerAction, DrawerBody, DrawerHeader,
    FormMode, FriendEntry, FriendsState, HubCall, HubError, HubForms, HubHealth, HubReply, HubRequest, HubSession,
    Presence, PresenceServer,
};
use open_strike::scenario::{drive, scenario_reply, scenario_role, Capture, Scenario, ScenarioAction, ScenarioRole};
use open_strike::text::eq_ignore_ascii_case;
use open_strike::text_field::FieldId;

fn account(name: &str, role: &str) -> Account {
    Account { id: 1, username: name.into(), display_name: name.into(), role: role.into(), email: None }
}

fn person(name: &str, state: &str, server: Option<&str>) -> FriendEntry {
    FriendEntry {
        username: name.into(),
        display_name: name.into(),
        presence: Presence {
            state: state.into(),
            server: server.map(|id| PresenceServer { server_id: id.into(), mode: "dm".into(), map: "dust2".into() }),
            last_seen: None,
        },
        relationship: String::new(),
    }
}

#[test]
fn drawer_buttons() {
    let mut forms = HubForms::new();
    let mut focus = None;
    let mut friends = FriendsState::new();
    assert!(drawer_action(DrawerAction::ShowRegister, &mut forms, &mut focus, &mut friends).is_empty());
    assert_eq!((forms.mode, focus, forms.version), (FormMode::Register, Some(FieldId::Username), 1));
    drawer_action(DrawerAction::ShowLogin, &mut forms, &mut focus, &mut friends);
    assert_eq!((forms.mode, focus), (FormMode::Login, Some(FieldId::Identifier)));
    forms.identifier = " kevin ".into();
    forms.password = "secret-pass".into();
    let calls = drawer_action(DrawerAction::SubmitLogin, &mut forms, &mut focus, &mut friends);
    match calls.as_slice() {
        [HubCall::Login { identifier, password }] => assert_eq!((identifier.as_str(), password.as_str()), ("kevin", "secret-pass")),
        other => panic!("unexpected calls {other:?}"),
    }
    assert!(forms.busy);
    assert_eq!(forms.version, 4);
    let calls = drawer_action(DrawerAction::Join("srv-1".into()), &mut forms, &mut focus, &mut friends);
    assert!(matches!(calls.as_slice(), [HubCall::JoinMatch(id)] if id == "srv-1"));
    forms.search = "ced".into();
    friends.search_results.push(person("cedar", "online", None));
    let calls = drawer_action(DrawerAction::Logout, &mut forms, &mut focus, &mut friends);
    assert!(matches!(calls.as_slice(), [HubCall::Logout]));
    assert_eq!(forms.search, "");
    assert!(friends.search_results.is_empty());
    forms.notice = Some("hello".into());
    drawer_action(DrawerAction::DismissNotice, &mut forms, &mut focus, &mut friends);
    assert_eq!(forms.notice, None);
    drawer_action(DrawerAction::Cancel, &mut forms, &mut focus, &mut friends);
    assert_eq!((forms.mode, focus), (FormMode::Idle, None));
    let calls = drawer_action(DrawerAction::AddFriend("cedar".into()), &mut forms, &mut focus, &mut friends);
    assert!(matches!(calls.as_slice(), [HubCall::FriendRequest(n)] if n == "cedar"));
}

#[test]
fn enter_submits_forms() {
    let mut forms = HubForms::new();
    forms.mode = FormMode::Register;
    forms.username = "kevin".into();
    forms.email = "k@example.com".into();
    forms.password = "open-strike".into();
    forms.confirm = "open-strike".into();
    assert!(field_submit(FieldId::Search, &mut forms).is_empty());
    assert_eq!(forms.version, 0);
    let calls = field_submit(FieldId::Confirm, &mut forms);
    assert!(matches!(calls.as_slice(), [HubCall::Register { .. }]));
    forms.mode = FormMode::Login;
    forms.busy = false;
    assert!(field_submit(FieldId::Email, &mut forms).is_empty());
    let calls = field_submit(FieldId::Password, &mut forms);
    assert!(calls.is_empty());
    assert_eq!(forms.error.as_deref(), Some("Enter your username or email and password"));
}

#[test]
fn drawer_layout() {
    assert_eq!(hub_label("", Some("http://http://hub.example:7777")), "hub.example:7777");
    assert_eq!(hub_label("", Some("https://hub")), "hub");
    assert_eq!(hub_label("My Hub", Some("https://hub")), "My Hub");
    assert_eq!(hub_label("", None), "");
    let mut health = HubHealth::default();
    let mut friends = FriendsState::new();
    friends.friends.push(person("cedar", "online", None));
    friends.friends.push(person("ash", "offline", None));
    friends.pending_in.push(person("rook", "online", None));
    let mut forms = HubForms::new();
    let session = HubSession::LoggedIn(account("kevin", "admin"));
    let view = drawer_view(&session, &health, "My Hub", 0, &friends, &forms);
    match &view.header {
        DrawerHeader::Account { username, detail, can_log_out } => {
            assert_eq!((username.as_str(), detail.as_str(), *can_log_out), ("kevin", "admin · My Hub", true));
        }
        other => panic!("unexpected header {other:?}"),
    }
    assert!(view.offline_banner.is_none());
    match &view.body {
        DrawerBody::Friends(panel) => {
            assert_eq!((panel.online, panel.requests, panel.searching, panel.empty_hint), (1, 1, false, false));
        }
        other => panic!("unexpected body {other:?}"),
    }
    health.online = false;
    forms.search = " ce ".into();
    let view = drawer_view(&session, &health, "My Hub", 7, &friends, &forms);
    assert_eq!(view.offline_banner.as_deref(), Some("HUB OFFLINE · retrying in 7s"));
    match &view.body {
        DrawerBody::Friends(panel) => assert!(panel.searching && panel.no_match),
        other => panic!("unexpected body {other:?}"),
    }
    forms.mode = FormMode::Login;
    forms.busy = true;
    let view = drawer_view(&HubSession::LoggedOut, &health, "hub", 3, &friends, &forms);
    assert!(matches!(&view.header, DrawerHeader::SignedOut { hub_line } if hub_line == "Hub: hub"));
    match view.body {
        DrawerBody::LoginForm { submit, enabled, back_enabled, .. } => {
            assert_eq!((submit, enabled, back_enabled), ("SIGNING IN…", false, false));
        }
        other => panic!("unexpected body {other:?}"),
    }
    let view = drawer_view(&HubSession::NoHub, &health, "", 0, &friends, &forms);
    assert!(matches!(view.header, DrawerHeader::NoHub));
    assert!(view.offline_banner.is_none());
    assert!(matches!(view.body, DrawerBody::Nothing));
}

fn walkthrough(role: ScenarioRole) -> Scenario {
    Scenario::new(role, "kevin".into(), "open-strike-demo".into(), None, "cedar".into(), Some("tdm"), 240_000)
}

#[test]
fn walkthrough_setup() {
    assert_eq!(scenario_role(Some("friend")), ScenarioRole::Friend);
    assert_eq!(scenario_role(Some("host")), ScenarioRole::Host);
    assert_eq!(scenario_role(None), ScenarioRole::Host);
    let s = walkthrough(ScenarioRole::Host);
    assert_eq!(s.email, "kevin@example.com");
    assert_eq!(s.mode, GameMode::TeamDeathmatch);
    let s = Scenario::new(ScenarioRole::Friend, "a".into(), "b".into(), Some("e@x".into()), "c".into(), Some("?"), 1);
    assert_eq!((s.email.as_str(), s.mode), ("e@x", GameMode::Deathmatch));
    assert_eq!(Capture::Gameplay2.name(), "gameplay-2");
    assert_eq!(ScenarioRole::Friend.name(), "friend");
    assert!(eq_ignore_ascii_case("CeDaR", "cedar"));
    assert!(!eq_ignore_ascii_case("cedar", "cedars"));
}

#[test]
fn host_walkthrough() {
    let mut s = walkthrough(ScenarioRole::Host);
    let mut forms = HubForms::new();
    let mut friends = FriendsState::new();
    let mut pinned = false;
    let menu = GameState::MainMenu;
    let out = drive(&mut s, 100, menu, &HubSession::LoggedOut, &friends, &mut forms, &mut pinned);
    assert!(out.is_empty() && pinned);
    assert_eq!((s.step, forms.mode, forms.username.as_str(), forms.confirm.as_str()), (1, FormMode::Register, "kevin", "open-strike-demo"));
    let out = drive(&mut s, 1000, menu, &HubSession::LoggedOut, &friends, &mut forms, &mut pinned);
    assert!(out.is_empty());
    let out = drive(&mut s, 1700, menu, &HubSession::LoggedOut, &friends, &mut forms, &mut pinned);
    assert!(matches!(out.as_slice(), [ScenarioAction::Shot(Capture::SidebarRegister), ScenarioAction::Hub(HubCall::Register { .. })]));
    assert!(forms.busy);
    let again = drive(&mut s, 3000, menu, &HubSession::LoggedOut, &friends, &mut forms, &mut pinned);
    assert!(again.is_empty());
    let signed_in = HubSession::LoggedIn(account("kevin", "player"));
    drive(&mut s, 3100, menu, &signed_in, &friends, &mut forms, &mut pinned);
    assert_eq!(s.step, 2);
    let out = drive(&mut s, 3200, menu, &signed_in, &friends, &mut forms, &mut pinned);
    assert!(matches!(out.as_slice(), [ScenarioAction::Hub(HubCall::Friends), ScenarioAction::Hub(HubCall::Search(q))] if q == "cedar"));
    assert_eq!(forms.search, "cedar");
    let out = drive(&mut s, 3300, menu, &signed_in, &friends, &mut forms, &mut pinned);
    assert!(out.is_empty());
    let out = drive(&mut s, 6300, menu, &signed_in, &friends, &mut forms, &mut pinned);
    assert!(matches!(out.as_slice(), [ScenarioAction::Hub(HubCall::Friends), ScenarioAction::Shot(Capture::SidebarSearch), ScenarioAction::Hub(HubCall::FriendRequest(n))] if n == "cedar"));
    friends.friends.push(person("CEDAR", "online", None));
    drive(&mut s, 6400, menu, &signed_in, &friends, &mut forms, &mut pinned);
    assert_eq!((s.step, forms.search.as_str()), (3, ""));
    let out = drive(&mut s, 9000, menu, &signed_in, &friends, &mut forms, &mut pinned);
    assert!(matches!(out.as_slice(), [ScenarioAction::Shot(Capture::SidebarFriends)]));
    assert_eq!(s.step, 4);
    forms.busy = false;
    let out = drive(&mut s, 14000, menu, &signed_in, &friends, &mut forms, &mut pinned);
    assert!(matches!(out.as_slice(), [ScenarioAction::Hub(HubCall::FindMatch(GameMode::TeamDeathmatch))]));
    let reply = scenario_reply(&mut s, &HubRequest::FindMatch(GameMode::TeamDeathmatch), &Err(HubError { code: "full".into(), message: "x".into(), transport: false }));
    assert!(reply.is_empty());
    assert_eq!(s.step_at_ms, 0);
    drive(&mut s, 15000, GameState::Loading, &signed_in, &friends, &mut forms, &mut pinned);
    assert_eq!(s.step, 5);
    let playing = GameState::Playing;
    assert!(drive(&mut s, 16000, playing, &signed_in, &friends, &mut forms, &mut pinned).is_empty());
    let out = drive(&mut s, 60000, playing, &signed_in, &friends, &mut forms, &mut pinned);
    assert!(matches!(out.as_slice(), [ScenarioAction::Shot(Capture::Gameplay1), ScenarioAction::Shot(Capture::Gameplay2), ScenarioAction::Shot(Capture::Gameplay3)]));
    assert_eq!(s.step, 6);
    let out = drive(&mut s, 61000, GameState::Finished, &signed_in, &friends, &mut forms, &mut pinned);
    assert!(matches!(out.as_slice(), [ScenarioAction::Shot(Capture::Finished)]));
    assert!(drive(&mut s, 62000, GameState::Finished, &signed_in, &friends, &mut forms, &mut pinned).is_empty());
    let out = drive(&mut s, 240_001, GameState::Finished, &signed_in, &friends, &mut forms, &mut pinned);
    assert!(matches!(out.as_slice(), [ScenarioAction::Exit { success: true }]));
}

#[test]
fn friend_walkthrough() {
    let mut s = walkthrough(ScenarioRole::Friend);
    let mut forms = HubForms::new();
    let mut friends = FriendsState::new();
    let mut pinned = false;
    let signed_in = HubSession::LoggedIn(account("cedar", "player"));
    let menu = GameState::MainMenu;
    drive(&mut s, 10, menu, &signed_in, &friends, &mut forms, &mut pinned);
    assert_eq!(s.step, 2);
    friends.pending_in.push(person("Cedar", "online", None));
    let out = drive(&mut s, 4000, menu, &signed_in, &friends, &mut forms, &mut pinned);
    assert!(matches!(out.as_slice(), [ScenarioAction::Hub(HubCall::Friends), ScenarioAction::Shot(Capture::SidebarRequest), ScenarioAction::Hub(HubCall::Accept(n))] if n == "Cedar"));
    friends.friends.push(person("cedar", "in_match", Some("srv-9")));
    drive(&mut s, 4100, menu, &signed_in, &friends, &mut forms, &mut pinned);
    drive(&mut s, 7000, menu, &signed_in, &friends, &mut forms, &mut pinned);
    assert_eq!(s.step, 4);
    let out = drive(&mut s, 12000, menu, &signed_in, &friends, &mut forms, &mut pinned);
    assert!(matches!(out.as_slice(), [ScenarioAction::Hub(HubCall::Friends), ScenarioAction::Shot(Capture::SidebarJoin), ScenarioAction::Hub(HubCall::JoinMatch(id))] if id == "srv-9"));
    let out = drive(&mut s, 20000, GameState::LoadFailed, &signed_in, &friends, &mut forms, &mut pinned);
    assert_eq!(s.step, 5);
    assert!(out.is_empty());
    let out = drive(&mut s, 20100, GameState::LoadFailed, &signed_in, &friends, &mut forms, &mut pinned);
    assert!(matches!(out.as_slice(), [ScenarioAction::Exit { success: false }]));
    let taken = HubError { code: "username_taken".into(), message: "x".into(), transport: false };
    let out = scenario_reply(&mut s, &HubRequest::Register, &Err::<HubReply, HubError>(taken));
    assert!(matches!(out.as_slice(), [ScenarioAction::Hub(HubCall::Login { identifier, .. })] if identifier == "kevin"));
}

#[test]
fn drawer_pins_focuses_and_closes() {
    let mut flags = DrawerFlags { pinned: false, focused: false, dismissed: false };
    drawer_input(&mut flags, true, false, false, true, false, false);
    assert!(flags.pinned && !flags.dismissed);
    assert!(drawer_open(&flags, false, false, false));
    drawer_input(&mut flags, true, false, true, false, false, false);
    assert!(flags.focused);
    drawer_input(&mut flags, true, false, false, false, true, false);
    assert!(!flags.pinned && flags.dismissed);
    assert!(!drawer_open(&flags, true, false, false));
    drawer_input(&mut flags, true, false, false, false, true, false);
    assert!(flags.pinned && !flags.dismissed);
    drawer_input(&mut flags, true, false, false, false, false, true);
    assert_eq!(flags, DrawerFlags { pinned: false, focused: false, dismissed: true });
    assert!(!drawer_open(&flags, true, false, true));
    drawer_input(&mut flags, false, false, false, false, false, false);
    assert!(!flags.dismissed);
    assert!(drawer_open(&flags, false, true, false));
    assert!(!drawer_open(&flags, false, false, false));
    drawer_input(&mut flags, true, true, true, false, false, true);
    assert!(!flags.focused && !flags.dismissed);
    assert!(drawer_open(&flags, false, false, true));
}
