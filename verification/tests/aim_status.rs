use overlay_hud::color::ColorCategory;
use overlay_hud::status::{derive_status, AimSettings, AimStatus, AimbotHandle};

fn handle(aim_mode: i32, locked: bool, grenade: bool, gun_safety: bool) -> AimbotHandle {
    AimbotHandle {
        settings: AimSettings { aim_mode },
        locked,
        grenade,
        gun_safety,
        max_fov: String::from("10.0"),
    }
}

fn shown(aim_mode: i32, locked: bool, grenade: bool, gun_safety: bool) -> (String, ColorCategory) {
    derive_status(Some(&handle(aim_mode, locked, grenade, gun_safety)))
}

#[test]
fn offline_is_gray() {
    assert_eq!(derive_status(None), (String::from("Aimbot Offline"), ColorCategory::Gray));
}

#[test]
fn lock_with_safety_is_green() {
    assert_eq!(shown(2, true, false, true), (String::from("TARGET LOCK!"), ColorCategory::Green));
}

#[test]
fn lock_without_safety_is_orange() {
    assert_eq!(shown(2, true, false, false), (String::from("TARGET LOCK!"), ColorCategory::Orange));
}

#[test]
fn lock_text_does_not_depend_on_safety() {
    let safe = shown(0, true, false, true);
    let live = shown(0, true, false, false);
    assert_eq!(safe.0, live.0);
    assert_ne!(safe.1, live.1);
}

#[test]
fn grenade_is_blue() {
    assert_eq!(shown(0, false, true, false), (String::from("Skynade On"), ColorCategory::Blue));
    assert_eq!(shown(7, false, true, true), (String::from("Skynade On"), ColorCategory::Blue));
}

#[test]
fn mode_two_is_aim_on() {
    assert_eq!(shown(2, false, false, false), (String::from("Aim On"), ColorCategory::Green));
    assert_eq!(shown(2, false, false, true), (String::from("Aim On"), ColorCategory::Green));
}

#[test]
fn mode_zero_is_aim_off() {
    assert_eq!(shown(0, false, false, false), (String::from("Aim Off"), ColorCategory::Red));
    assert_eq!(shown(0, false, false, true), (String::from("Aim Off"), ColorCategory::Red));
}

#[test]
fn other_modes_show_their_number() {
    assert_eq!(shown(1, false, false, false), (String::from("Aim On 1"), ColorCategory::Red));
    assert_eq!(shown(4, false, false, true), (String::from("Aim On 4"), ColorCategory::Red));
    assert_eq!(shown(130, false, false, false), (String::from("Aim On 130"), ColorCategory::Red));
}

#[test]
fn negative_and_extreme_modes_show_their_number() {
    assert_eq!(shown(-1, false, false, false), (String::from("Aim On -1"), ColorCategory::Red));
    assert_eq!(
        shown(i32::MAX, false, false, false),
        (String::from("Aim On 2147483647"), ColorCategory::Red)
    );
    assert_eq!(
        shown(i32::MIN, false, false, false),
        (String::from("Aim On -2147483648"), ColorCategory::Red)
    );
}

#[test]
fn lock_wins_over_grenade_and_mode() {
    assert_eq!(shown(2, true, true, true), (String::from("TARGET LOCK!"), ColorCategory::Green));
    assert_eq!(shown(0, true, true, false), (String::from("TARGET LOCK!"), ColorCategory::Orange));
    assert_eq!(shown(9, true, true, false), (String::from("TARGET LOCK!"), ColorCategory::Orange));
}

#[test]
fn grenade_wins_over_mode() {
    assert_eq!(shown(2, false, true, false), (String::from("Skynade On"), ColorCategory::Blue));
    assert_eq!(shown(0, false, true, true), (String::from("Skynade On"), ColorCategory::Blue));
}

#[test]
fn every_state_has_one_of_the_six_outcomes() {
    let modes: [i32; 7] = [i32::MIN, -1, 0, 1, 2, 3, i32::MAX];
    let flags = [false, true];
    for mode in modes {
        for locked in flags {
            for grenade in flags {
                for gun_safety in flags {
                    let h = handle(mode, locked, grenade, gun_safety);
                    let status = AimStatus::of(Some(&h));
                    let expected = if locked {
                        AimStatus::TargetLock { safe: gun_safety }
                    } else if grenade {
                        AimStatus::Skynade
                    } else if mode == 2 {
                        AimStatus::AimOn
                    } else if mode == 0 {
                        AimStatus::AimOff
                    } else {
                        AimStatus::AimOnMode { mode }
                    };
                    assert_eq!(status, expected);
                    assert_eq!(derive_status(Some(&h)), status.render());
                }
            }
        }
    }
    assert_eq!(AimStatus::of(None), AimStatus::Offline);
}

#[test]
fn outcomes_render_differently() {
    let outcomes = [
        AimStatus::Offline,
        AimStatus::TargetLock { safe: true },
        AimStatus::TargetLock { safe: false },
        AimStatus::Skynade,
        AimStatus::AimOn,
        AimStatus::AimOff,
        AimStatus::AimOnMode { mode: 1 },
        AimStatus::AimOnMode { mode: 2 },
        AimStatus::AimOnMode { mode: -2 },
    ];
    let mut i: usize = 0;
    while i < outcomes.len() {
        let mut j: usize = i + 1;
        while j < outcomes.len() {
            assert_ne!(outcomes[i].render(), outcomes[j].render());
            j += 1;
        }
        i += 1;
    }
}
