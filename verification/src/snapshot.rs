//! One frame's copy of the telemetry that the producer publishes.
//!
//! Real-valued telemetry reaches the library as decimal text. The constants
//! below say with how many fraction digits each kind of value is written.

use crate::status::{AimbotHandle, AimbotView};
use vstd::prelude::*;

verus! {

/// Fraction digits of a position component.
pub const POSITION_DECIMALS: usize = 0;

/// Fraction digits of a view angle.
pub const ANGLE_DECIMALS: usize = 2;

/// Fraction digits of an aim target component.
pub const AIM_DECIMALS: usize = 2;

/// Fraction digits of a frame rate.
pub const FPS_DECIMALS: usize = 1;

/// Fraction digits of the aim field of view.
pub const FOV_DECIMALS: usize = 1;

/// Three components, each as decimal text.
#[derive(Clone, Debug)]
pub struct Vec3Text {
    pub x: String,
    pub y: String,
    pub z: String,
}

pub struct Vec3View {
    pub x: Seq<char>,
    pub y: Seq<char>,
    pub z: Seq<char>,
}

impl View for Vec3Text {
    type V = Vec3View;

    open spec fn view(&self) -> Vec3View {
        Vec3View { x: self.x@, y: self.y@, z: self.z@ }
    }
}

/// The view of a triple that may be absent.
pub open spec fn vec3_view(v: Option<Vec3Text>) -> Option<Vec3View> {
    match v {
        Some(v) => Some(v@),
        None => None,
    }
}

/// The local player as observed. Position and angles are resolved
/// independently of each other, and either may be missing.
#[derive(Clone, Debug)]
pub struct PlayerSnapshot {
    /// The position in the world.
    pub origin: Option<Vec3Text>,
    /// Pitch, yaw and roll.
    pub view_angles: Option<Vec3Text>,
}

pub struct PlayerView {
    pub origin: Option<Vec3View>,
    pub view_angles: Option<Vec3View>,
}

impl View for PlayerSnapshot {
    type V = PlayerView;

    open spec fn view(&self) -> PlayerView {
        PlayerView { origin: vec3_view(self.origin), view_angles: vec3_view(self.view_angles) }
    }
}

/// One member of the local player's team.
#[derive(Clone, Debug)]
pub struct TeammateInfo {
    pub team_member_index: i32,
    pub player_name: String,
    pub damage_dealt: i32,
    pub kills: i32,
}

pub struct TeammateView {
    pub team_member_index: int,
    pub player_name: Seq<char>,
    pub damage_dealt: int,
    pub kills: int,
}

impl View for TeammateInfo {
    type V = TeammateView;

    open spec fn view(&self) -> TeammateView {
        TeammateView {
            team_member_index: self.team_member_index as int,
            player_name: self.player_name@,
            damage_dealt: self.damage_dealt as int,
            kills: self.kills as int,
        }
    }
}

/// The characters of each string of a list.
pub open spec fn texts(names: Seq<String>) -> Seq<Seq<char>> {
    Seq::new(names.len(), |i: int| names[i]@)
}

/// The view of each teammate of a list.
pub open spec fn teammate_views(teammates: Seq<TeammateInfo>) -> Seq<TeammateView> {
    Seq::new(teammates.len(), |i: int| teammates[i]@)
}

/// The telemetry of one producer tick, copied out for one frame.
#[derive(Clone, Debug)]
pub struct Snapshot {
    /// The frame rate of the observed game.
    pub game_fps: String,
    /// The local player; absent while none is observed.
    pub local_player: Option<PlayerSnapshot>,
    /// The point that is aimed at.
    pub aim_target: Vec3Text,
    /// The names of all who watch the local player.
    pub spectator_name: Vec<String>,
    /// The names of the watchers that are allies. Nothing makes this a part
    /// of `spectator_name`: a name belongs to it where it is equal,
    /// character by character, to one of its entries.
    pub allied_spectator_name: Vec<String>,
    /// The local player's team.
    pub teammates: Vec<TeammateInfo>,
    /// The aim subsystem; absent while it is offline.
    pub aimbot_state: Option<AimbotHandle>,
}

pub struct SnapshotView {
    pub game_fps: Seq<char>,
    pub local_player: Option<PlayerView>,
    pub aim_target: Vec3View,
    pub spectator_name: Seq<Seq<char>>,
    pub allied_spectator_name: Seq<Seq<char>>,
    pub teammates: Seq<TeammateView>,
    pub aimbot_state: Option<AimbotView>,
}

impl View for Snapshot {
    type V = SnapshotView;

    open spec fn view(&self) -> SnapshotView {
        SnapshotView {
            game_fps: self.game_fps@,
            local_player: match self.local_player {
                Some(p) => Some(p@),
                None => None,
            },
            aim_target: self.aim_target@,
            spectator_name: texts(self.spectator_name@),
            allied_spectator_name: texts(self.allied_spectator_name@),
            teammates: teammate_views(self.teammates@),
            aimbot_state: match self.aimbot_state {
                Some(h) => Some(h@),
                None => None,
            },
        }
    }
}

/// What is shown before the producer has published anything, and when its
/// state cannot be read: no player, nobody watching, no team, the aim
/// subsystem offline, every number zero.
pub open spec fn blank() -> SnapshotView {
    SnapshotView {
        game_fps: "0.0"@,
        local_player: None,
        aim_target: Vec3View { x: "0.00"@, y: "0.00"@, z: "0.00"@ },
        spectator_name: Seq::empty(),
        allied_spectator_name: Seq::empty(),
        teammates: Seq::empty(),
        aimbot_state: None,
    }
}

impl Default for Snapshot {
    fn default() -> (snapshot: Snapshot)
        ensures
            snapshot@ == blank(),
    {
        let snapshot = Snapshot {
            game_fps: "0.0".to_owned(),
            local_player: None,
            aim_target: Vec3Text {
                x: "0.00".to_owned(),
                y: "0.00".to_owned(),
                z: "0.00".to_owned(),
            },
            spectator_name: Vec::new(),
            allied_spectator_name: Vec::new(),
            teammates: Vec::new(),
            aimbot_state: None,
        };
        assert(snapshot@.spectator_name =~= Seq::empty());
        assert(snapshot@.allied_spectator_name =~= Seq::empty());
        assert(snapshot@.teammates =~= Seq::empty());
        snapshot
    }
}

} // verus!
