use open_strike::config::GameMode;
use open_strike::config::MatchSettings;
use open_strike::game::GameState;
use open_strike::hud::{
    alive_counts, clock_text, display_name, match_details, mode_label, push_feed, rank_order, ranking_shown, score_text,
    status_text, KILL_FEED_CAPACITY,
};
use open_strike::matchplay::Team;
use open_strike::text_field::{
    backspace, next_field, shown_text, type_text, typing, FieldEvent, FieldId, FieldKey,
};
use open_strike::hub::HubForms;
use std::collections::VecDeque;

#[test]
fn feed_names_fit() {
    assert_eq!(display_name("kevin"), "kevin");
    let exact = "a".repeat(22);
    assert_eq!(display_name(&exact), exact);
    assert_eq!(display_name(&"b".repeat(23)), format!("{}…", "b".repeat(21)));
    assert_eq!(display_name(&"é".repeat(30)).chars().count(), 22);
}

#[test]
fn feed_keeps_the_newest_four() {
    let mut feed = VecDeque::new();
    for kill in 0..6 {
        push_feed(&mut feed, kill);
    }
    assert_eq!(feed.len(), KILL_FEED_CAPACITY);
    assert_eq!(feed.into_iter().collect::<Vec<_>>(), vec![2, 3, 4, 5]);
}

#[test]
fn ranking_order() {
    let standings = vec![(3, 2), (5, 1), (3, 0), (0, 3), (5, 4)];
    assert_eq!(rank_order(&standings), vec![1, 4, 2, 0, 3]);
    assert_eq!(rank_order(&vec![]), Vec::<usize>::new());
    assert_eq!(rank_order(&vec![(1, 1), (1, 1)]), vec![0, 1]);
    assert!(ranking_shown(GameMode::TeamDeathmatch));
    assert!(!ranking_shown(GameMode::Deathmatch));
}

#[test]
fn typing_into_fields() {
    let mut value = String::from("ab");
    assert!(type_text(&mut value, "c\u{7}d"));
    assert_eq!(value, "abcd");
    assert!(!type_text(&mut value, "\n"));
    let mut full = "x".repeat(63);
    assert!(type_text(&mut full, "yz"));
    assert_eq!(full.chars().count(), 64);
    assert!(full.ends_with('y'));
    assert!(backspace(&mut value));
    assert_eq!(value, "abc");
    let mut empty = String::new();
    assert!(!backspace(&mut empty));
}

#[test]
fn focus_moves_with_tab() {
    let order = vec![FieldId::Identifier, FieldId::Password];
    assert_eq!(next_field(&order, FieldId::Identifier), Some(FieldId::Password));
    assert_eq!(next_field(&order, FieldId::Password), Some(FieldId::Identifier));
    assert_eq!(next_field(&order, FieldId::Search), None);
}

#[test]
fn a_frame_of_keys() {
    let mut forms = HubForms::new();
    let mut focus = Some(FieldId::Identifier);
    let fields = vec![FieldId::Identifier, FieldId::Password];
    let keys = vec![
        FieldKey::Text(Some("kev".into())),
        FieldKey::Backspace,
        FieldKey::Tab,
        FieldKey::Text(Some("in".into())),
        FieldKey::Enter,
        FieldKey::Text(None),
    ];
    let events = typing(&mut focus, &mut forms, &fields, &keys);
    assert_eq!(forms.identifier, "kein");
    assert_eq!(forms.password, "");
    assert_eq!(focus, Some(FieldId::Password));
    assert_eq!(
        events,
        vec![
            FieldEvent::Changed(FieldId::Identifier),
            FieldEvent::Changed(FieldId::Identifier),
            FieldEvent::Changed(FieldId::Identifier),
            FieldEvent::Submit(FieldId::Identifier),
        ]
    );
    let events = typing(&mut focus, &mut forms, &fields, &vec![FieldKey::Escape, FieldKey::Text(Some("x".into()))]);
    assert_eq!(focus, None);
    assert_eq!(forms.password, "x");
    assert_eq!(events, vec![FieldEvent::Changed(FieldId::Password)]);
    assert!(typing(&mut focus, &mut forms, &fields, &vec![FieldKey::Enter]).is_empty());
    let mut lost = Some(FieldId::Search);
    assert!(typing(&mut lost, &mut forms, &fields, &vec![FieldKey::Enter]).is_empty());
    assert_eq!(lost, None);
}

#[test]
fn field_rendering() {
    assert_eq!(shown_text("", "username", false, true, false), "username");
    assert_eq!(shown_text("", "username", true, true, false), "|");
    assert_eq!(shown_text("", "username", true, false, false), "");
    assert_eq!(shown_text("abc", "", false, true, false), "abc");
    assert_eq!(shown_text("abc", "", true, true, true), "•••|");
    assert_eq!(shown_text("héé", "", true, false, true), "•••");
    assert!(FieldId::Password.masked());
    assert!(FieldId::Confirm.masked());
    assert!(!FieldId::Email.masked());
    let mut forms = HubForms::new();
    FieldId::Email.value_mut(&mut forms).push_str("a@b.c");
    assert_eq!(FieldId::Email.value(&forms), "a@b.c");
}

#[test]
fn hud_texts() {
    assert_eq!(clock_text(GameMode::TeamDeathmatch, 600), "10:00");
    assert_eq!(clock_text(GameMode::TeamDeathmatch, 65), "01:05");
    assert_eq!(clock_text(GameMode::TeamDeathmatch, 6000), "100:00");
    assert_eq!(clock_text(GameMode::Deathmatch, 65), "--:--");
    assert_eq!(score_text([12, 7]), "12 : 7");
    assert_eq!(mode_label(GameMode::TeamDeathmatch), "TDM");
    assert_eq!(mode_label(GameMode::Freemode), "PRACTICE");
    let actors = vec![(Team::Attacker, true), (Team::Defender, false), (Team::Defender, true), (Team::Attacker, true)];
    assert_eq!(alive_counts(&actors), [2, 1]);
    assert_eq!(status_text(GameState::Loading, "Dust 2", "navigation", "", [0, 0], None), "LOADING Dust 2\nnavigation\nEsc - cancel");
    assert_eq!(
        status_text(GameState::LoadFailed, "", "missing asset", "", [0, 0], None),
        "COULD NOT START MATCH\nmissing asset\nEnter - retry    Esc - menu"
    );
    assert_eq!(
        status_text(GameState::Finished, "", "", "DRAW", [3, 3], None),
        "DRAW\n3 : 3\nEnter - play again    Esc - menu"
    );
    assert_eq!(status_text(GameState::Playing, "", "", "", [0, 0], Some(3)), "ELIMINATED\nRespawn in 3");
    assert_eq!(status_text(GameState::Playing, "", "", "", [0, 0], None), "");
    assert_eq!(status_text(GameState::MainMenu, "", "", "", [0, 0], Some(3)), "");
}

#[test]
fn match_card_details() {
    assert_eq!(match_details(&MatchSettings::default()), "Local bots · 3v3\n10 min · First to 50 kills");
    let open = MatchSettings { time_limit_secs: None, score_limit: None, respawn_secs: 0 };
    assert_eq!(match_details(&open), "Local bots · 3v3\nUnlimited time · No score limit");
}
