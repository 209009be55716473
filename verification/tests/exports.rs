use open_strike::level::{check_exports, ExportFacts};

fn facts(scenes: usize, animations: &[&str], nodes: &[&str]) -> ExportFacts {
    ExportFacts {
        scenes,
        animations: animations.iter().map(|s| s.to_string()).collect(),
        nodes: nodes.iter().map(|s| s.to_string()).collect(),
    }
}

const CLIPS: [&str; 12] = [
    "idle_rifle", "walk_forward", "walk_backward", "run_forward", "strafe_left", "strafe_right", "fire_rifle",
    "reload_rifle", "jump", "crouch_idle", "crouch_walk", "death",
];

fn character() -> ExportFacts {
    facts(1, &CLIPS, &[])
}

fn weapon() -> ExportFacts {
    facts(1, &["idle_rifle", "fire_rifle", "reload_rifle"], &["Muzzle", "Magazine", "Bolt", "WeaponGrip"])
}

fn knives() -> [ExportFacts; 5] {
    let clips = ["idle_knife", "draw_knife", "slash_knife"];
    [
        facts(1, &clips, &["KnifeGrip"]),
        facts(1, &clips, &["KnifeGrip"]),
        facts(1, &[], &["KnifeGrip"]),
        facts(1, &clips, &[]),
        facts(1, &clips, &[]),
    ]
}

#[test]
fn complete_exports_pass() {
    assert_eq!(check_exports(&vec![character(), character()], &vec![weapon(), weapon(), weapon()], &knives()), Ok(()));
}

#[test]
fn character_missing_a_clip() {
    let mut second = character();
    second.animations.retain(|a| a != "jump" && a != "death");
    assert_eq!(
        check_exports(&vec![character(), second], &vec![weapon()], &knives()),
        Err("Character 1 missing required clip jump".to_string())
    );
}

#[test]
fn weapon_missing_a_socket_or_scene() {
    let message = Err("Weapon export is missing a required scene, named action or socket".to_string());
    let mut gun = weapon();
    gun.nodes.pop();
    assert_eq!(check_exports(&vec![character()], &vec![weapon(), gun], &knives()), message);
    let mut empty = weapon();
    empty.scenes = 0;
    assert_eq!(check_exports(&vec![], &vec![empty], &knives()), message);
}

#[test]
fn knife_errors_in_order() {
    let mut k = knives();
    k[3].animations.clear();
    assert_eq!(
        check_exports(&vec![], &vec![], &k),
        Err("Attacker knife pose export is missing a scene or required knife clip".to_string())
    );
    let mut k = knives();
    k[2].nodes.clear();
    assert_eq!(check_exports(&vec![], &vec![], &k), Err("Knife world export is missing KnifeGrip".to_string()));
    let mut k = knives();
    k[1].scenes = 0;
    k[0].nodes.clear();
    assert_eq!(check_exports(&vec![], &vec![], &k), Err("Knife Soldier view export is missing KnifeGrip".to_string()));
}
