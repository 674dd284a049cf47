//! The status of the aim subsystem as the overlay shows it: one of six
//! outcomes, chosen in a fixed order of priority.

use crate::color::ColorCategory;
use crate::decimal::{append_signed, decimal_int, decimal_int_injective, decimal_nat_is_digits};
use vstd::prelude::*;

verus! {

/// The settings of the aim subsystem that the overlay reads.
#[derive(Clone, Debug)]
pub struct AimSettings {
    /// The aiming mode as the subsystem numbers it: 0 is off, 2 is on.
    pub aim_mode: i32,
}

/// What an active aim subsystem reports. Where the subsystem is offline
/// there is no handle.
#[derive(Clone, Debug)]
pub struct AimbotHandle {
    pub settings: AimSettings,
    /// Whether a target is locked.
    pub locked: bool,
    /// Whether grenade assistance is on.
    pub grenade: bool,
    /// Whether the gun's safety is on.
    pub gun_safety: bool,
    /// The widest field of view in which targets are taken, as decimal text.
    pub max_fov: String,
}

/// What is read of a handle in contracts.
pub struct AimbotView {
    pub aim_mode: i32,
    pub locked: bool,
    pub grenade: bool,
    pub gun_safety: bool,
    pub max_fov: Seq<char>,
}

impl View for AimbotHandle {
    type V = AimbotView;

    open spec fn view(&self) -> AimbotView {
        AimbotView {
            aim_mode: self.settings.aim_mode,
            locked: self.locked,
            grenade: self.grenade,
            gun_safety: self.gun_safety,
            max_fov: self.max_fov@,
        }
    }
}

/// The view of a handle that may be absent.
pub open spec fn handle_view(handle: Option<&AimbotHandle>) -> Option<AimbotView> {
    match handle {
        Some(h) => Some(h@),
        None => None,
    }
}

/// The six outcomes.
#[derive(Clone, Copy, Debug, PartialEq, Eq, Structural)]
pub enum AimStatus {
    /// The aim subsystem is offline.
    Offline,
    /// A target is locked, with the gun's safety on (`safe`) or off.
    TargetLock { safe: bool },
    /// Grenade assistance is on.
    Skynade,
    /// Aiming is on.
    AimOn,
    /// Aiming is off.
    AimOff,
    /// Aiming is in a mode that has no name; the mode's number is shown.
    AimOnMode { mode: i32 },
}

/// The outcome for a subsystem in the given state. The first rule that
/// applies decides: offline, then a lock, then grenade assistance, then the
/// aiming mode.
pub open spec fn status_of(handle: Option<AimbotView>) -> AimStatus {
    match handle {
        None => AimStatus::Offline,
        Some(h) => if h.locked {
            AimStatus::TargetLock { safe: h.gun_safety }
        } else if h.grenade {
            AimStatus::Skynade
        } else if h.aim_mode == 2 {
            AimStatus::AimOn
        } else if h.aim_mode == 0 {
            AimStatus::AimOff
        } else {
            AimStatus::AimOnMode { mode: h.aim_mode }
        },
    }
}

impl AimStatus {
    /// The text shown for this outcome.
    pub open spec fn text(self) -> Seq<char> {
        match self {
            AimStatus::Offline => "Aimbot Offline"@,
            AimStatus::TargetLock { .. } => "TARGET LOCK!"@,
            AimStatus::Skynade => "Skynade On"@,
            AimStatus::AimOn => "Aim On"@,
            AimStatus::AimOff => "Aim Off"@,
            AimStatus::AimOnMode { mode } => "Aim On "@ + decimal_int(mode as int),
        }
    }

    /// The colour in which this outcome is shown.
    pub open spec fn color(self) -> ColorCategory {
        match self {
            AimStatus::Offline => ColorCategory::Gray,
            AimStatus::TargetLock { safe } => if safe {
                ColorCategory::Green
            } else {
                ColorCategory::Orange
            },
            AimStatus::Skynade => ColorCategory::Blue,
            AimStatus::AimOn => ColorCategory::Green,
            AimStatus::AimOff => ColorCategory::Red,
            AimStatus::AimOnMode { .. } => ColorCategory::Red,
        }
    }

    /// The outcome for a subsystem in the given state.
    pub fn of(aimbot_state: Option<&AimbotHandle>) -> (status: AimStatus)
        ensures
            status == status_of(handle_view(aimbot_state)),
    {
        match aimbot_state {
            None => AimStatus::Offline,
            Some(aimbot) => {
                if aimbot.locked {
                    AimStatus::TargetLock { safe: aimbot.gun_safety }
                } else if aimbot.grenade {
                    AimStatus::Skynade
                } else if aimbot.settings.aim_mode == 2 {
                    AimStatus::AimOn
                } else if aimbot.settings.aim_mode == 0 {
                    AimStatus::AimOff
                } else {
                    AimStatus::AimOnMode { mode: aimbot.settings.aim_mode }
                }
            },
        }
    }

    /// The text and the colour of this outcome.
    pub fn render(self) -> (shown: (String, ColorCategory))
        ensures
            shown.0@ == self.text(),
            shown.1 == self.color(),
    {
        match self {
            AimStatus::Offline => ("Aimbot Offline".to_owned(), ColorCategory::Gray),
            AimStatus::TargetLock { safe } => (
                "TARGET LOCK!".to_owned(),
                if safe {
                    ColorCategory::Green
                } else {
                    ColorCategory::Orange
                },
            ),
            AimStatus::Skynade => ("Skynade On".to_owned(), ColorCategory::Blue),
            AimStatus::AimOn => ("Aim On".to_owned(), ColorCategory::Green),
            AimStatus::AimOff => ("Aim Off".to_owned(), ColorCategory::Red),
            AimStatus::AimOnMode { mode } => {
                let mut text = "Aim On ".to_owned();
                append_signed(&mut text, mode as i64);
                (text, ColorCategory::Red)
            },
        }
    }
}

/// The status text and its colour for a subsystem in the given state;
/// `None` stands for a subsystem that is offline.
pub fn derive_status(aimbot_state: Option<&AimbotHandle>) -> (shown: (String, ColorCategory))
    ensures
        shown.0@ == status_of(handle_view(aimbot_state)).text(),
        shown.1 == status_of(handle_view(aimbot_state)).color(),
{
    AimStatus::of(aimbot_state).render()
}

/// The order of priority. A lock wins over everything else, grenade
/// assistance over the aiming mode, whatever else holds at the same time;
/// the aiming mode decides only where neither is on.
pub proof fn status_priority(handle: AimbotView)
    ensures
        handle.locked ==> status_of(Some(handle)) == (AimStatus::TargetLock {
            safe: handle.gun_safety,
        }),
        !handle.locked && handle.grenade ==> status_of(Some(handle)) == AimStatus::Skynade,
        !handle.locked && !handle.grenade && handle.aim_mode == 2 ==> status_of(Some(handle))
            == AimStatus::AimOn,
        !handle.locked && !handle.grenade && handle.aim_mode == 0 ==> status_of(Some(handle))
            == AimStatus::AimOff,
        !handle.locked && !handle.grenade && handle.aim_mode != 2 && handle.aim_mode != 0
            ==> status_of(Some(handle)) == (AimStatus::AimOnMode { mode: handle.aim_mode }),
        status_of(None) == AimStatus::Offline,
{
}

/// A lock reads the same whatever else the subsystem reports, and its
/// colour follows the gun's safety alone: green with the safety on, orange
/// with the safety off.
pub proof fn lock_color_follows_safety(handle: AimbotView)
    requires
        handle.locked,
    ensures
        status_of(Some(handle)).text() == "TARGET LOCK!"@,
        handle.gun_safety ==> status_of(Some(handle)).color() == ColorCategory::Green,
        !handle.gun_safety ==> status_of(Some(handle)).color() == ColorCategory::Orange,
{
}

/// No two outcomes are shown alike: text and colour together tell which of
/// the six it is, for a lock whether the safety is on, and for a mode
/// without a name which mode it is.
pub proof fn outcomes_are_told_apart(a: AimStatus, b: AimStatus)
    requires
        a.text() == b.text(),
        a.color() == b.color(),
    ensures
        a == b,
{
    reveal_strlit("Aimbot Offline");
    reveal_strlit("TARGET LOCK!");
    reveal_strlit("Skynade On");
    reveal_strlit("Aim On");
    reveal_strlit("Aim Off");
    reveal_strlit("Aim On ");
    let prefix = "Aim On "@;
    assert("Aimbot Offline"@.len() == 14);
    assert("TARGET LOCK!"@.len() == 12);
    assert("Skynade On"@.len() == 10);
    assert("Aim On"@.len() == 6);
    assert("Aim Off"@.len() == 7);
    assert(prefix.len() == 7);
    if let AimStatus::AimOnMode { mode } = a {
        numbered_mode_is_longer(mode);
    }
    if let AimStatus::AimOnMode { mode } = b {
        numbered_mode_is_longer(mode);
    }
    if let AimStatus::AimOnMode { mode: mode_a } = a {
        if let AimStatus::AimOnMode { mode: mode_b } = b {
            let text_a = decimal_int(mode_a as int);
            let text_b = decimal_int(mode_b as int);
            assert((prefix + text_a).subrange(7, 7 + text_a.len() as int) =~= text_a);
            assert((prefix + text_b).subrange(7, 7 + text_b.len() as int) =~= text_b);
            decimal_int_injective(mode_a as int, mode_b as int);
        }
    }
}

/// The text of a mode without a name is longer than any of the fixed texts
/// that begin as it does.
proof fn numbered_mode_is_longer(mode: i32)
    ensures
        (AimStatus::AimOnMode { mode }).text().len() >= 8,
{
    reveal_strlit("Aim On ");
    if mode < 0 {
        decimal_nat_is_digits((-mode) as nat);
    } else {
        decimal_nat_is_digits(mode as nat);
    }
}

} // verus!
