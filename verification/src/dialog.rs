//! The diagnostics window: frame rates, the local player's position and
//! angles, the aim target, the team and the spectators.

use crate::decimal::{decimal_int, format_signed};
use crate::snapshot::{
    texts, PlayerSnapshot, PlayerView, Snapshot, SnapshotView, TeammateInfo, TeammateView,
    Vec3Text, Vec3View,
};
use vstd::prelude::*;

verus! {

/// The line of frame rates. The overlay's own rate comes from the host's
/// frame timing and reads `N/A` while the host has none; the game's rate is
/// the one that the producer observed.
pub open spec fn fps_text(overlay_fps: Option<Seq<char>>, game_fps: Seq<char>) -> Seq<char> {
    let overlay = match overlay_fps {
        Some(rate) => rate,
        None => "N/A"@,
    };
    "Overlay("@ + overlay + " FPS) Game("@ + game_fps + " FPS)"@
}

/// A position, component by component.
pub open spec fn position_of(origin: Vec3View) -> Seq<char> {
    "x="@ + origin.x + ",y="@ + origin.y + ",z="@ + origin.z
}

/// View angles, component by component.
pub open spec fn angles_of(angles: Vec3View) -> Seq<char> {
    "pitch="@ + angles.x + ",yew="@ + angles.y + ",roll="@ + angles.z
}

/// The position line: empty unless a player is observed and its position
/// resolved.
pub open spec fn position_text(player: Option<PlayerView>) -> Seq<char> {
    match player {
        Some(PlayerView { origin: Some(origin), .. }) => position_of(origin),
        _ => Seq::empty(),
    }
}

/// The angle line: empty unless a player is observed and its angles
/// resolved.
pub open spec fn angles_text(player: Option<PlayerView>) -> Seq<char> {
    match player {
        Some(PlayerView { view_angles: Some(angles), .. }) => angles_of(angles),
        _ => Seq::empty(),
    }
}

/// The aim target line.
pub open spec fn aim_text(target: Vec3View) -> Seq<char> {
    "aim["@ + target.x + ","@ + target.y + ","@ + target.z + "]"@
}

/// One row of the team list.
#[derive(Clone, Debug)]
pub struct TeammateRow {
    /// The member's index, followed by a dash.
    pub index_label: String,
    /// The member's name.
    pub name: String,
    /// Whether the name is set off in green: the member is watching as an
    /// ally.
    pub highlighted: bool,
    /// The damage dealt.
    pub damage: String,
    /// The kills.
    pub kills: String,
}

pub struct TeammateRowView {
    pub index_label: Seq<char>,
    pub name: Seq<char>,
    pub highlighted: bool,
    pub damage: Seq<char>,
    pub kills: Seq<char>,
}

impl View for TeammateRow {
    type V = TeammateRowView;

    open spec fn view(&self) -> TeammateRowView {
        TeammateRowView {
            index_label: self.index_label@,
            name: self.name@,
            highlighted: self.highlighted,
            damage: self.damage@,
            kills: self.kills@,
        }
    }
}

/// The view of each row of a list.
pub open spec fn row_views(rows: Seq<TeammateRow>) -> Seq<TeammateRowView> {
    Seq::new(rows.len(), |i: int| rows[i]@)
}

/// The row of one teammate. The name is highlighted exactly where it is,
/// character by character, one of the allied spectators' names.
pub open spec fn teammate_row(teammate: TeammateView, allied: Seq<Seq<char>>) -> TeammateRowView {
    TeammateRowView {
        index_label: decimal_int(teammate.team_member_index) + " - "@,
        name: teammate.player_name,
        highlighted: allied.contains(teammate.player_name),
        damage: decimal_int(teammate.damage_dealt),
        kills: decimal_int(teammate.kills),
    }
}

/// The rows of the team list: one for each teammate, in the snapshot's
/// order.
pub open spec fn teammate_rows_of(
    teammates: Seq<TeammateView>,
    allied: Seq<Seq<char>>,
) -> Seq<TeammateRowView> {
    Seq::new(teammates.len(), |i: int| teammate_row(teammates[i], allied))
}

/// The line that stands in for a list of `len` entries: `text` for an empty
/// list, none otherwise.
pub open spec fn placeholder_for(len: nat, text: Seq<char>) -> Option<Seq<char>> {
    if len == 0 {
        Some(text)
    } else {
        None
    }
}

/// What the diagnostics window shows.
#[derive(Clone, Debug)]
pub struct DialogEsp {
    /// The window's title.
    pub title: String,
    /// The line of frame rates.
    pub fps: String,
    /// The local player's position, or nothing.
    pub local_position: String,
    /// The local player's view angles, or nothing.
    pub local_angles: String,
    /// The aim target.
    pub aim_position: String,
    /// The heading of the team list.
    pub teammates_heading: String,
    /// The line shown in place of an empty team list.
    pub teammates_placeholder: Option<String>,
    /// The team list.
    pub teammates_info: Vec<TeammateRow>,
    /// The heading of the spectator list.
    pub spectators_heading: String,
    /// The line shown in place of an empty spectator list.
    pub spectators_placeholder: Option<String>,
    /// The spectator list: one name to a line.
    pub spectator_name: Vec<String>,
}

pub struct DialogView {
    pub title: Seq<char>,
    pub fps: Seq<char>,
    pub local_position: Seq<char>,
    pub local_angles: Seq<char>,
    pub aim_position: Seq<char>,
    pub teammates_heading: Seq<char>,
    pub teammates_placeholder: Option<Seq<char>>,
    pub teammates_info: Seq<TeammateRowView>,
    pub spectators_heading: Seq<char>,
    pub spectators_placeholder: Option<Seq<char>>,
    pub spectator_name: Seq<Seq<char>>,
}

/// The characters of a string that may be absent.
pub open spec fn text_view(text: Option<String>) -> Option<Seq<char>> {
    match text {
        Some(t) => Some(t@),
        None => None,
    }
}

impl View for DialogEsp {
    type V = DialogView;

    open spec fn view(&self) -> DialogView {
        DialogView {
            title: self.title@,
            fps: self.fps@,
            local_position: self.local_position@,
            local_angles: self.local_angles@,
            aim_position: self.aim_position@,
            teammates_heading: self.teammates_heading@,
            teammates_placeholder: text_view(self.teammates_placeholder),
            teammates_info: row_views(self.teammates_info@),
            spectators_heading: self.spectators_heading@,
            spectators_placeholder: text_view(self.spectators_placeholder),
            spectator_name: texts(self.spectator_name@),
        }
    }
}

/// The window's content for a snapshot and the overlay's own frame rate.
pub open spec fn dialog_of(overlay_fps: Option<Seq<char>>, snapshot: SnapshotView) -> DialogView {
    DialogView {
        title: "Hello, world!"@,
        fps: fps_text(overlay_fps, snapshot.game_fps),
        local_position: position_text(snapshot.local_player),
        local_angles: angles_text(snapshot.local_player),
        aim_position: aim_text(snapshot.aim_target),
        teammates_heading: "Teammates"@,
        teammates_placeholder: placeholder_for(snapshot.teammates.len(), "no teammates"@),
        teammates_info: teammate_rows_of(snapshot.teammates, snapshot.allied_spectator_name),
        spectators_heading: "Spectators"@,
        spectators_placeholder: placeholder_for(snapshot.spectator_name.len(), "no spectators"@),
        spectator_name: snapshot.spectator_name,
    }
}

/// A teammate's name is highlighted if and only if it is, character by
/// character, the name of an allied spectator: a name that differs in the
/// case of a letter or by a blank at either end is another name.
pub proof fn highlighting_is_membership(
    overlay_fps: Option<Seq<char>>,
    snapshot: SnapshotView,
    i: int,
)
    requires
        0 <= i < snapshot.teammates.len(),
    ensures
        dialog_of(overlay_fps, snapshot).teammates_info.len() == snapshot.teammates.len(),
        dialog_of(overlay_fps, snapshot).teammates_info[i].name == snapshot.teammates[i].player_name,
        dialog_of(overlay_fps, snapshot).teammates_info[i].highlighted <==> exists|j: int|
            0 <= j < snapshot.allied_spectator_name.len() && snapshot.allied_spectator_name[j]
                == snapshot.teammates[i].player_name,
{
}

/// Each list shows its placeholder exactly when it is empty, and one entry
/// for each of its members, in order, otherwise.
pub proof fn placeholder_only_when_empty(overlay_fps: Option<Seq<char>>, snapshot: SnapshotView)
    ensures
        snapshot.teammates.len() == 0 ==> dialog_of(overlay_fps, snapshot).teammates_placeholder
            == Some("no teammates"@),
        snapshot.teammates.len() > 0 ==> dialog_of(overlay_fps, snapshot).teammates_placeholder
            is None,
        dialog_of(overlay_fps, snapshot).teammates_info.len() == snapshot.teammates.len(),
        snapshot.spectator_name.len() == 0 ==> dialog_of(
            overlay_fps,
            snapshot,
        ).spectators_placeholder == Some("no spectators"@),
        snapshot.spectator_name.len() > 0 ==> dialog_of(overlay_fps, snapshot).spectators_placeholder
            is None,
        dialog_of(overlay_fps, snapshot).spectator_name == snapshot.spectator_name,
{
}

/// Without a resolved position the position line is empty, and without
/// resolved angles the angle line is; neither depends on the other.
pub proof fn absent_lines_are_blank(overlay_fps: Option<Seq<char>>, snapshot: SnapshotView)
    ensures
        (snapshot.local_player is None || snapshot.local_player->0.origin is None) ==> dialog_of(
            overlay_fps,
            snapshot,
        ).local_position == Seq::<char>::empty(),
        (snapshot.local_player is None || snapshot.local_player->0.view_angles is None)
            ==> dialog_of(overlay_fps, snapshot).local_angles == Seq::<char>::empty(),
        (snapshot.local_player is Some && snapshot.local_player->0.origin is Some) ==> dialog_of(
            overlay_fps,
            snapshot,
        ).local_position == position_of(snapshot.local_player->0.origin->0),
        (snapshot.local_player is Some && snapshot.local_player->0.view_angles is Some)
            ==> dialog_of(overlay_fps, snapshot).local_angles == angles_of(
            snapshot.local_player->0.view_angles->0,
        ),
{
}

/// The line of frame rates.
pub fn fps_line(overlay_fps: Option<&str>, game_fps: &str) -> (line: String)
    ensures
        line@ == fps_text(
            match overlay_fps {
                Some(rate) => Some(rate@),
                None => None,
            },
            game_fps@,
        ),
{
    let mut line = "Overlay(".to_owned();
    match overlay_fps {
        Some(rate) => line.append(rate),
        None => line.append("N/A"),
    }
    line.append(" FPS) Game(");
    line.append(game_fps);
    line.append(" FPS)");
    line
}

/// The position line of the local player.
pub fn position_line(player: Option<&PlayerSnapshot>) -> (line: String)
    ensures
        line@ == position_text(
            match player {
                Some(p) => Some(p@),
                None => None,
            },
        ),
{
    match player {
        Some(PlayerSnapshot { origin: Some(origin), .. }) => {
            let mut line = "x=".to_owned();
            line.append(origin.x.as_str());
            line.append(",y=");
            line.append(origin.y.as_str());
            line.append(",z=");
            line.append(origin.z.as_str());
            line
        },
        _ => String::new(),
    }
}

/// The angle line of the local player.
pub fn angles_line(player: Option<&PlayerSnapshot>) -> (line: String)
    ensures
        line@ == angles_text(
            match player {
                Some(p) => Some(p@),
                None => None,
            },
        ),
{
    match player {
        Some(PlayerSnapshot { view_angles: Some(angles), .. }) => {
            let mut line = "pitch=".to_owned();
            line.append(angles.x.as_str());
            line.append(",yew=");
            line.append(angles.y.as_str());
            line.append(",roll=");
            line.append(angles.z.as_str());
            line
        },
        _ => String::new(),
    }
}

/// The aim target line.
pub fn aim_line(target: &Vec3Text) -> (line: String)
    ensures
        line@ == aim_text(target@),
{
    let mut line = "aim[".to_owned();
    line.append(target.x.as_str());
    line.append(",");
    line.append(target.y.as_str());
    line.append(",");
    line.append(target.z.as_str());
    line.append("]");
    line
}

/// Whether `name` is one of `names`, compared character by character.
pub fn contains_name(names: &Vec<String>, name: &String) -> (found: bool)
    ensures
        found == texts(names@).contains(name@),
{
    let mut i: usize = 0;
    while i < names.len()
        invariant
            i <= names.len(),
            forall|j: int| 0 <= j < i ==> texts(names@)[j] != name@,
        decreases names.len() - i,
    {
        if names[i] == *name {
            assert(texts(names@)[i as int] == name@);
            return true;
        }
        i += 1;
    }
    false
}

/// A copy of a list of names.
pub fn copy_names(names: &Vec<String>) -> (copy: Vec<String>)
    ensures
        texts(copy@) == texts(names@),
{
    let mut copy: Vec<String> = Vec::new();
    let mut i: usize = 0;
    while i < names.len()
        invariant
            i <= names.len(),
            copy.len() == i,
            forall|j: int| 0 <= j < i ==> copy[j]@ == names[j]@,
        decreases names.len() - i,
    {
        copy.push(names[i].clone());
        i += 1;
    }
    assert(texts(copy@) =~= texts(names@));
    copy
}

/// The row of one teammate.
pub fn row_for(teammate: &TeammateInfo, allied: &Vec<String>) -> (row: TeammateRow)
    ensures
        row@ == teammate_row(teammate@, texts(allied@)),
{
    let mut index_label = format_signed(teammate.team_member_index as i64);
    index_label.append(" - ");
    TeammateRow {
        index_label,
        name: teammate.player_name.clone(),
        highlighted: contains_name(allied, &teammate.player_name),
        damage: format_signed(teammate.damage_dealt as i64),
        kills: format_signed(teammate.kills as i64),
    }
}

/// The rows of the team list.
pub fn teammate_rows(teammates: &Vec<TeammateInfo>, allied: &Vec<String>) -> (rows: Vec<
    TeammateRow,
>)
    ensures
        row_views(rows@) == teammate_rows_of(
            crate::snapshot::teammate_views(teammates@),
            texts(allied@),
        ),
{
    let mut rows: Vec<TeammateRow> = Vec::new();
    let mut i: usize = 0;
    while i < teammates.len()
        invariant
            i <= teammates.len(),
            rows.len() == i,
            forall|j: int| 0 <= j < i ==> rows[j]@ == teammate_row(teammates[j]@, texts(allied@)),
        decreases teammates.len() - i,
    {
        rows.push(row_for(&teammates[i], allied));
        i += 1;
    }
    assert(row_views(rows@) =~= teammate_rows_of(
        crate::snapshot::teammate_views(teammates@),
        texts(allied@),
    ));
    rows
}

/// The line shown in place of a list of `len` entries.
pub fn placeholder(len: usize, text: &str) -> (line: Option<String>)
    ensures
        text_view(line) == placeholder_for(len as nat, text@),
{
    if len == 0 {
        Some(text.to_owned())
    } else {
        None
    }
}

impl DialogEsp {
    /// The window's content for a snapshot. `overlay_fps` is the overlay's
    /// own frame rate as the host measured it, where it has one.
    pub fn compose(overlay_fps: Option<&str>, snapshot: &Snapshot) -> (dialog: DialogEsp)
        ensures
            dialog@ == dialog_of(
                match overlay_fps {
                    Some(rate) => Some(rate@),
                    None => None,
                },
                snapshot@,
            ),
    {
        DialogEsp {
            title: "Hello, world!".to_owned(),
            fps: fps_line(overlay_fps, snapshot.game_fps.as_str()),
            local_position: position_line(snapshot.local_player.as_ref()),
            local_angles: angles_line(snapshot.local_player.as_ref()),
            aim_position: aim_line(&snapshot.aim_target),
            teammates_heading: "Teammates".to_owned(),
            teammates_placeholder: placeholder(snapshot.teammates.len(), "no teammates"),
            teammates_info: teammate_rows(&snapshot.teammates, &snapshot.allied_spectator_name),
            spectators_heading: "Spectators".to_owned(),
            spectators_placeholder: placeholder(snapshot.spectator_name.len(), "no spectators"),
            spectator_name: copy_names(&snapshot.spectator_name),
        }
    }
}

} // verus!
