//! The info bar: a fixed strip at the display's origin that sums up, from
//! left to right, who is watching and what the aim subsystem is doing.

use crate::color::{white, ColorCategory, Rgba};
use crate::decimal::{decimal_nat, format_unsigned};
use crate::snapshot::{Snapshot, SnapshotView};
use crate::status::{derive_status, status_of};
use vstd::prelude::*;

verus! {

/// What the info bar reports.
#[derive(Clone, Debug)]
pub struct EspInfo {
    /// The aim field of view, as decimal text.
    pub aimbot_fov: String,
    /// The status of the aim subsystem.
    pub aimbot_status_text: String,
    /// The colour of that status.
    pub aimbot_status_color: ColorCategory,
    /// How many watch the local player.
    pub spectators: usize,
    /// How many of them are allies.
    pub allied_spectators: usize,
}

pub struct EspInfoView {
    pub aimbot_fov: Seq<char>,
    pub aimbot_status_text: Seq<char>,
    pub aimbot_status_color: ColorCategory,
    pub spectators: nat,
    pub allied_spectators: nat,
}

impl View for EspInfo {
    type V = EspInfoView;

    open spec fn view(&self) -> EspInfoView {
        EspInfoView {
            aimbot_fov: self.aimbot_fov@,
            aimbot_status_text: self.aimbot_status_text@,
            aimbot_status_color: self.aimbot_status_color,
            spectators: self.spectators as nat,
            allied_spectators: self.allied_spectators as nat,
        }
    }
}

/// What the info bar reports of a snapshot. An offline aim subsystem has the
/// field of view zero.
pub open spec fn esp_info_of(snapshot: SnapshotView) -> EspInfoView {
    EspInfoView {
        aimbot_fov: match snapshot.aimbot_state {
            Some(aimbot) => aimbot.max_fov,
            None => "0.0"@,
        },
        aimbot_status_text: status_of(snapshot.aimbot_state).text(),
        aimbot_status_color: status_of(snapshot.aimbot_state).color(),
        spectators: snapshot.spectator_name.len(),
        allied_spectators: snapshot.allied_spectator_name.len(),
    }
}

impl EspInfo {
    /// What the info bar reports of a snapshot.
    pub fn gather(snapshot: &Snapshot) -> (info: EspInfo)
        ensures
            info@ == esp_info_of(snapshot@),
    {
        let (aimbot_status_text, aimbot_status_color) = derive_status(
            snapshot.aimbot_state.as_ref(),
        );
        let aimbot_fov = match &snapshot.aimbot_state {
            Some(aimbot) => aimbot.max_fov.clone(),
            None => "0.0".to_owned(),
        };
        EspInfo {
            aimbot_fov,
            aimbot_status_text,
            aimbot_status_color,
            spectators: snapshot.spectator_name.len(),
            allied_spectators: snapshot.allied_spectator_name.len(),
        }
    }
}

/// One piece of the bar's text.
#[derive(Clone, Debug)]
pub struct BarSegment {
    pub text: String,
    /// The colour of the text; none for the host's own text colour.
    pub color: Option<Rgba>,
}

pub struct SegmentView {
    pub text: Seq<char>,
    pub color: Option<Rgba>,
}

impl View for BarSegment {
    type V = SegmentView;

    open spec fn view(&self) -> SegmentView {
        SegmentView { text: self.text@, color: self.color }
    }
}

/// The view of each segment of a list.
pub open spec fn segment_views(segments: Seq<BarSegment>) -> Seq<SegmentView> {
    Seq::new(segments.len(), |i: int| segments[i]@)
}

/// The mark that stands between two values of the bar.
pub open spec fn delimiter() -> SegmentView {
    SegmentView { text: "--"@, color: None }
}

/// The colour of the spectator count: green while nobody watches, red as
/// soon as anybody does.
pub open spec fn watch_color(spectators: nat) -> ColorCategory {
    if spectators == 0 {
        ColorCategory::Green
    } else {
        ColorCategory::Red
    }
}

/// The bar's text, from left to right: the spectator count, the allied
/// spectator count, the aim field of view and the aim status, with the
/// delimiter between each two.
pub open spec fn segments_of(info: EspInfoView) -> Seq<SegmentView> {
    seq![
        SegmentView {
            text: decimal_nat(info.spectators),
            color: Some(watch_color(info.spectators).spec_rgba()),
        },
        delimiter(),
        SegmentView {
            text: decimal_nat(info.allied_spectators),
            color: Some(ColorCategory::Green.spec_rgba()),
        },
        delimiter(),
        SegmentView { text: info.aimbot_fov, color: Some(white()) },
        delimiter(),
        SegmentView {
            text: info.aimbot_status_text,
            color: Some(info.aimbot_status_color.spec_rgba()),
        },
    ]
}

/// A straight line between two points of the display.
#[derive(Clone, Copy, Debug, PartialEq, Eq, Structural)]
pub struct Line {
    pub x0: u16,
    pub y0: u16,
    pub x1: u16,
    pub y1: u16,
}

/// Where the bar lies and how it is drawn.
#[derive(Clone, Copy, Debug, PartialEq, Eq, Structural)]
pub struct BarFrame {
    /// The bar's extent, from the display's origin.
    pub width: u16,
    pub height: u16,
    /// The radius of the bar's corners.
    pub rounding: u16,
    /// The fill behind the text.
    pub background: Rgba,
    /// The lines along the upper and the lower edge.
    pub top_border: Line,
    pub bottom_border: Line,
    pub border_color: Rgba,
    pub border_width: u16,
    /// The room left free before the first and after the last value.
    pub padding: u16,
    pub text_size: u16,
}

/// The bar's width.
pub const BAR_WIDTH: u16 = 280;

/// The bar's height.
pub const BAR_HEIGHT: u16 = 30;

/// The radius of the bar's corners.
pub const BAR_ROUNDING: u16 = 2;

/// The width of the bar's border lines.
pub const BORDER_WIDTH: u16 = 2;

/// The size of the bar's text.
pub const TEXT_SIZE: u16 = 16;

/// How opaque the bar's background is, in hundredths.
pub const BACKGROUND_OPACITY: u16 = 60;

/// The share `hundredths` of full opacity, rounded to the nearest step.
pub open spec fn opacity(hundredths: int) -> int {
    (255 * hundredths + 50) / 100
}

/// The bar's frame: a dark fill that lets the scene shine through, and a
/// red line along the upper and the lower edge, each kept clear of the
/// rounded corners.
pub open spec fn bar_frame() -> BarFrame {
    BarFrame {
        width: BAR_WIDTH,
        height: BAR_HEIGHT,
        rounding: BAR_ROUNDING,
        background: Rgba::spec_black_alpha(opacity(BACKGROUND_OPACITY as int) as u8),
        top_border: Line {
            x0: BAR_ROUNDING,
            y0: 0,
            x1: (BAR_WIDTH - BAR_ROUNDING) as u16,
            y1: 0,
        },
        bottom_border: Line {
            x0: BAR_ROUNDING,
            y0: (BAR_HEIGHT - BORDER_WIDTH) as u16,
            x1: (BAR_WIDTH - BAR_ROUNDING) as u16,
            y1: (BAR_HEIGHT - BORDER_WIDTH) as u16,
        },
        border_color: Rgba::spec_opaque(255, 0, 0),
        border_width: BORDER_WIDTH,
        padding: (BAR_ROUNDING * 2) as u16,
        text_size: TEXT_SIZE,
    }
}

impl BarFrame {
    /// The bar's frame.
    pub fn standard() -> (frame: BarFrame)
        ensures
            frame == bar_frame(),
            frame.background.a == 153,
            frame.top_border == (Line { x0: 2, y0: 0, x1: 278, y1: 0 }),
            frame.bottom_border == (Line { x0: 2, y0: 28, x1: 278, y1: 28 }),
            frame.padding == 4,
    {
        let alpha: u16 = (255 * BACKGROUND_OPACITY + 50) / 100;
        let top: u16 = 0;
        let bottom: u16 = BAR_HEIGHT - BORDER_WIDTH;
        let left: u16 = BAR_ROUNDING;
        let right: u16 = BAR_WIDTH - BAR_ROUNDING;
        BarFrame {
            width: BAR_WIDTH,
            height: BAR_HEIGHT,
            rounding: BAR_ROUNDING,
            background: Rgba::black_alpha(alpha as u8),
            top_border: Line { x0: left, y0: top, x1: right, y1: top },
            bottom_border: Line { x0: left, y0: bottom, x1: right, y1: bottom },
            border_color: Rgba::opaque(255, 0, 0),
            border_width: BORDER_WIDTH,
            padding: BAR_ROUNDING * 2,
            text_size: TEXT_SIZE,
        }
    }
}

/// The info bar of one frame.
#[derive(Clone, Debug)]
pub struct InfoBar {
    pub frame: BarFrame,
    pub info: EspInfo,
    pub segments: Vec<BarSegment>,
}

pub struct InfoBarView {
    pub frame: BarFrame,
    pub info: EspInfoView,
    pub segments: Seq<SegmentView>,
}

impl View for InfoBar {
    type V = InfoBarView;

    open spec fn view(&self) -> InfoBarView {
        InfoBarView {
            frame: self.frame,
            info: self.info@,
            segments: segment_views(self.segments@),
        }
    }
}

/// The info bar for a snapshot.
pub open spec fn info_bar_of(snapshot: SnapshotView) -> InfoBarView {
    InfoBarView {
        frame: bar_frame(),
        info: esp_info_of(snapshot),
        segments: segments_of(esp_info_of(snapshot)),
    }
}

/// The delimiter as a segment.
fn delimiter_segment() -> (segment: BarSegment)
    ensures
        segment@ == delimiter(),
{
    BarSegment { text: "--".to_owned(), color: None }
}

/// The bar's text for what it reports.
pub fn segments(info: &EspInfo) -> (segments: Vec<BarSegment>)
    ensures
        segment_views(segments@) == segments_of(info@),
{
    let watch = if info.spectators == 0 {
        ColorCategory::Green
    } else {
        ColorCategory::Red
    };
    let mut segments: Vec<BarSegment> = Vec::new();
    segments.push(
        BarSegment { text: format_unsigned(info.spectators as u64), color: Some(watch.rgba()) },
    );
    segments.push(delimiter_segment());
    segments.push(
        BarSegment {
            text: format_unsigned(info.allied_spectators as u64),
            color: Some(ColorCategory::Green.rgba()),
        },
    );
    segments.push(delimiter_segment());
    segments.push(
        BarSegment { text: info.aimbot_fov.clone(), color: Some(Rgba::opaque(255, 255, 255)) },
    );
    segments.push(delimiter_segment());
    segments.push(
        BarSegment {
            text: info.aimbot_status_text.clone(),
            color: Some(info.aimbot_status_color.rgba()),
        },
    );
    assert(segment_views(segments@) =~= segments_of(info@));
    segments
}

/// The info bar for a snapshot.
pub fn info_bar_ui(snapshot: &Snapshot) -> (bar: InfoBar)
    ensures
        bar@ == info_bar_of(snapshot@),
{
    let info = EspInfo::gather(snapshot);
    let segments = segments(&info);
    InfoBar { frame: BarFrame::standard(), info, segments }
}

} // verus!
