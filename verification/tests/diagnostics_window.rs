use overlay_hud::dialog::{
    aim_line, angles_line, contains_name, copy_names, fps_line, placeholder, position_line,
    row_for, teammate_rows, DialogEsp,
};
use overlay_hud::snapshot::{
    PlayerSnapshot, Snapshot, TeammateInfo, Vec3Text, AIM_DECIMALS, ANGLE_DECIMALS, FPS_DECIMALS,
    POSITION_DECIMALS,
};

fn rendered(v: [f32; 3], decimals: usize) -> Vec3Text {
    Vec3Text {
        x: format!("{:.*}", decimals, v[0]),
        y: format!("{:.*}", decimals, v[1]),
        z: format!("{:.*}", decimals, v[2]),
    }
}

fn player(origin: Option<[f32; 3]>, angles: Option<[f32; 3]>) -> PlayerSnapshot {
    PlayerSnapshot {
        origin: origin.map(|v| rendered(v, POSITION_DECIMALS)),
        view_angles: angles.map(|v| rendered(v, ANGLE_DECIMALS)),
    }
}

fn names(list: &[&str]) -> Vec<String> {
    list.iter().map(|s| String::from(*s)).collect()
}

fn mate(index: i32, name: &str, damage: i32, kills: i32) -> TeammateInfo {
    TeammateInfo {
        team_member_index: index,
        player_name: String::from(name),
        damage_dealt: damage,
        kills,
    }
}

fn snapshot() -> Snapshot {
    Snapshot {
        game_fps: format!("{:.*}", FPS_DECIMALS, 143.96_f32),
        local_player: Some(player(Some([1.234, -5.6, 100.0]), Some([12.345, -0.001, 90.0]))),
        aim_target: rendered([10.0, 0.5, -3.14159], AIM_DECIMALS),
        spectator_name: names(&["ann", "bob", "cy"]),
        allied_spectator_name: names(&["bob", "dee"]),
        teammates: vec![mate(0, "dee", 120, 1), mate(1, "eve", 0, 0), mate(2, "Bob", 77, 3)],
        aimbot_state: None,
    }
}

#[test]
fn position_is_written_without_fraction_digits() {
    let p = player(Some([1.234, -5.6, 100.0]), None);
    assert_eq!(position_line(Some(&p)), "x=1,y=-6,z=100");
}

#[test]
fn angles_are_written_with_two_fraction_digits() {
    let p = player(None, Some([12.345, -0.001, 90.0]));
    assert_eq!(angles_line(Some(&p)), "pitch=12.35,yew=-0.00,roll=90.00");
}

#[test]
fn position_without_origin_is_empty() {
    let p = player(None, Some([1.0, 2.0, 3.0]));
    assert_eq!(position_line(Some(&p)), "");
    assert_eq!(angles_line(Some(&p)), "pitch=1.00,yew=2.00,roll=3.00");
}

#[test]
fn angles_without_view_angles_are_empty() {
    let p = player(Some([1.0, 2.0, 3.0]), None);
    assert_eq!(angles_line(Some(&p)), "");
    assert_eq!(position_line(Some(&p)), "x=1,y=2,z=3");
}

#[test]
fn lines_without_a_player_are_empty() {
    assert_eq!(position_line(None), "");
    assert_eq!(angles_line(None), "");
}

#[test]
fn aim_target_is_written_with_two_fraction_digits() {
    assert_eq!(aim_line(&rendered([10.0, 0.5, -3.14159], AIM_DECIMALS)), "aim[10.00,0.50,-3.14]");
    assert_eq!(aim_line(&rendered([0.0, 0.0, 0.0], AIM_DECIMALS)), "aim[0.00,0.00,0.00]");
}

#[test]
fn fps_line_with_a_measured_rate() {
    let overlay = format!("{:.*}", FPS_DECIMALS, 59.94_f64);
    let game = format!("{:.*}", FPS_DECIMALS, 143.96_f32);
    assert_eq!(fps_line(Some(overlay.as_str()), game.as_str()), "Overlay(59.9 FPS) Game(144.0 FPS)");
}

#[test]
fn fps_line_without_a_measured_rate() {
    assert_eq!(fps_line(None, "60.0"), "Overlay(N/A FPS) Game(60.0 FPS)");
}

#[test]
fn membership_is_exact() {
    let allied = names(&["Bob", "dee "]);
    assert!(contains_name(&allied, &String::from("Bob")));
    assert!(contains_name(&allied, &String::from("dee ")));
    assert!(!contains_name(&allied, &String::from("bob")));
    assert!(!contains_name(&allied, &String::from("BOB")));
    assert!(!contains_name(&allied, &String::from("dee")));
    assert!(!contains_name(&allied, &String::from(" Bob")));
    assert!(!contains_name(&allied, &String::from("Bo")));
    assert!(!contains_name(&allied, &String::from("")));
    assert!(!contains_name(&Vec::new(), &String::from("Bob")));
}

#[test]
fn membership_of_the_empty_name() {
    assert!(contains_name(&names(&["a", ""]), &String::from("")));
}

#[test]
fn row_of_an_allied_spectator_is_highlighted() {
    let row = row_for(&mate(3, "dee", 250, 4), &names(&["bob", "dee"]));
    assert_eq!(row.index_label, "3 - ");
    assert_eq!(row.name, "dee");
    assert!(row.highlighted);
    assert_eq!(row.damage, "250");
    assert_eq!(row.kills, "4");
}

#[test]
fn row_of_anyone_else_is_not_highlighted() {
    let row = row_for(&mate(-1, "Dee", -5, 0), &names(&["bob", "dee"]));
    assert_eq!(row.index_label, "-1 - ");
    assert_eq!(row.name, "Dee");
    assert!(!row.highlighted);
    assert_eq!(row.damage, "-5");
    assert_eq!(row.kills, "0");
}

#[test]
fn rows_follow_the_teams_order() {
    let s = snapshot();
    let rows = teammate_rows(&s.teammates, &s.allied_spectator_name);
    assert_eq!(rows.len(), 3);
    let shown: Vec<(&str, &str, bool, &str, &str)> = rows
        .iter()
        .map(|r| {
            (r.index_label.as_str(), r.name.as_str(), r.highlighted, r.damage.as_str(), r.kills.as_str())
        })
        .collect();
    assert_eq!(
        shown,
        vec![
            ("0 - ", "dee", true, "120", "1"),
            ("1 - ", "eve", false, "0", "0"),
            ("2 - ", "Bob", false, "77", "3"),
        ]
    );
}

#[test]
fn highlighting_follows_membership_for_every_teammate() {
    let allied = names(&["a", "B", "c ", "dd"]);
    let candidates = ["a", "A", "b", "B", "c", "c ", " c", "d", "dd", "ddd", ""];
    let team: Vec<TeammateInfo> = candidates
        .iter()
        .enumerate()
        .map(|(i, n)| mate(i as i32, n, 0, 0))
        .collect();
    let rows = teammate_rows(&team, &allied);
    assert_eq!(rows.len(), team.len());
    let mut i: usize = 0;
    while i < rows.len() {
        let member = allied.iter().any(|a| a == candidates[i]);
        assert_eq!(rows[i].highlighted, member);
        assert_eq!(rows[i].name, candidates[i]);
        i += 1;
    }
}

#[test]
fn placeholder_stands_for_an_empty_list_only() {
    assert_eq!(placeholder(0, "no teammates"), Some(String::from("no teammates")));
    assert_eq!(placeholder(1, "no teammates"), None);
    assert_eq!(placeholder(usize::MAX, "no teammates"), None);
}

#[test]
fn copy_names_keeps_names_and_order() {
    let list = names(&["x", "", "y y", "x"]);
    assert_eq!(copy_names(&list), list);
    assert_eq!(copy_names(&Vec::new()), Vec::<String>::new());
}

#[test]
fn dialog_of_a_full_snapshot() {
    let s = snapshot();
    let d = DialogEsp::compose(Some("59.9"), &s);
    assert_eq!(d.title, "Hello, world!");
    assert_eq!(d.fps, "Overlay(59.9 FPS) Game(144.0 FPS)");
    assert_eq!(d.local_position, "x=1,y=-6,z=100");
    assert_eq!(d.local_angles, "pitch=12.35,yew=-0.00,roll=90.00");
    assert_eq!(d.aim_position, "aim[10.00,0.50,-3.14]");
    assert_eq!(d.teammates_heading, "Teammates");
    assert_eq!(d.teammates_placeholder, None);
    assert_eq!(d.teammates_info.len(), 3);
    assert!(d.teammates_info[0].highlighted);
    assert!(!d.teammates_info[1].highlighted);
    assert!(!d.teammates_info[2].highlighted);
    assert_eq!(d.spectators_heading, "Spectators");
    assert_eq!(d.spectators_placeholder, None);
    assert_eq!(d.spectator_name, names(&["ann", "bob", "cy"]));
}

#[test]
fn dialog_of_the_blank_snapshot() {
    let d = DialogEsp::compose(None, &Snapshot::default());
    assert_eq!(d.fps, "Overlay(N/A FPS) Game(0.0 FPS)");
    assert_eq!(d.local_position, "");
    assert_eq!(d.local_angles, "");
    assert_eq!(d.aim_position, "aim[0.00,0.00,0.00]");
    assert_eq!(d.teammates_placeholder, Some(String::from("no teammates")));
    assert!(d.teammates_info.is_empty());
    assert_eq!(d.spectators_placeholder, Some(String::from("no spectators")));
    assert!(d.spectator_name.is_empty());
}

#[test]
fn blank_snapshot_is_written_as_zeros_are() {
    let blank = Snapshot::default();
    assert_eq!(blank.game_fps, format!("{:.*}", FPS_DECIMALS, 0.0_f32));
    assert_eq!(blank.aim_target.x, format!("{:.*}", AIM_DECIMALS, 0.0_f32));
    assert_eq!(blank.aim_target.y, format!("{:.*}", AIM_DECIMALS, 0.0_f32));
    assert_eq!(blank.aim_target.z, format!("{:.*}", AIM_DECIMALS, 0.0_f32));
    assert!(blank.local_player.is_none());
    assert!(blank.aimbot_state.is_none());
    assert!(blank.spectator_name.is_empty());
    assert!(blank.allied_spectator_name.is_empty());
    assert!(blank.teammates.is_empty());
}

#[test]
fn one_list_empty_and_the_other_not() {
    let mut s = snapshot();
    s.teammates.clear();
    let d = DialogEsp::compose(None, &s);
    assert_eq!(d.teammates_placeholder, Some(String::from("no teammates")));
    assert_eq!(d.spectators_placeholder, None);
    assert_eq!(d.spectator_name.len(), 3);

    let mut s = snapshot();
    s.spectator_name.clear();
    let d = DialogEsp::compose(None, &s);
    assert_eq!(d.teammates_placeholder, None);
    assert_eq!(d.teammates_info.len(), 3);
    assert_eq!(d.spectators_placeholder, Some(String::from("no spectators")));
}

#[test]
fn composing_leaves_the_snapshot_as_it_was() {
    let s = snapshot();
    let _ = DialogEsp::compose(Some("1.0"), &s);
    let again = snapshot();
    assert_eq!(s.game_fps, again.game_fps);
    assert_eq!(s.spectator_name, again.spectator_name);
    assert_eq!(s.allied_spectator_name, again.allied_spectator_name);
    assert_eq!(s.teammates.len(), again.teammates.len());
}
