//! One frame of the overlay, from the font check to the two surfaces'
//! content.

use crate::dialog::{dialog_of, DialogEsp};
use crate::fonts::{carries_font, installs, step, FontAssetLoader, FontState};
use crate::info_bar::{info_bar_of, info_bar_ui, InfoBar};
use crate::snapshot::{blank, Snapshot, SnapshotView};
use egui::FontDefinitions;
use vstd::prelude::*;

verus! {

/// What the renderer keeps from frame to frame: the font loader, and the
/// snapshot that was last read.
pub struct OverlayRuntimeState {
    fonts: FontAssetLoader,
    shown: Snapshot,
}

/// What one frame hands to the host.
pub struct Frame {
    /// The font definitions to install, in the one frame that installs
    /// them.
    pub fonts: Option<FontDefinitions>,
    /// The diagnostics window.
    pub dialog: DialogEsp,
    /// The info bar.
    pub info_bar: InfoBar,
}

/// The characters of a frame rate that may be absent.
pub open spec fn rate_view(rate: Option<&str>) -> Option<Seq<char>> {
    match rate {
        Some(rate) => Some(rate@),
        None => None,
    }
}

/// The telemetry that a frame shows: what was read for it, or, where the
/// shared state could not be read, what the frame before showed.
pub open spec fn shown_in_frame(read: Option<Snapshot>, before: SnapshotView) -> SnapshotView {
    match read {
        Some(fresh) => fresh@,
        None => before,
    }
}

impl OverlayRuntimeState {
    /// The font loader's state.
    pub closed spec fn font_state(&self) -> FontState {
        self.fonts.state()
    }

    /// The snapshot that was last shown.
    pub closed spec fn shown(&self) -> SnapshotView {
        self.shown@
    }

    /// The state before the first frame: the font not installed, nothing
    /// read yet.
    pub fn new() -> (state: OverlayRuntimeState)
        ensures
            state.font_state() == FontState::Unloaded,
            state.shown() == blank(),
    {
        OverlayRuntimeState { fonts: FontAssetLoader::new(), shown: Snapshot::default() }
    }

    /// Whether the font has been installed. While it has not, the host
    /// looks for the font's bytes before each frame.
    pub fn font_loaded(&self) -> (loaded: bool)
        ensures
            loaded == (self.font_state() == FontState::Loaded),
    {
        self.fonts.is_loaded()
    }
}

/// One frame. `font_bytes` holds the font file where the host has resolved
/// it, `overlay_fps` the overlay's own frame rate where the host has
/// measured one, and `read` the copy of the shared state that was taken for
/// this frame, or nothing where the shared state could not be read.
///
/// The font is installed by the first frame that finds its bytes. Both
/// surfaces show one and the same snapshot: the one read for this frame,
/// else the one shown before.
pub fn ui_system(
    overlay_state: &mut OverlayRuntimeState,
    font_bytes: Option<Vec<u8>>,
    overlay_fps: Option<&str>,
    read: Option<Snapshot>,
) -> (frame: Frame)
    ensures
        final(overlay_state).font_state() == step(old(overlay_state).font_state(), font_bytes is Some),
        frame.fonts is Some <==> installs(old(overlay_state).font_state(), font_bytes is Some),
        frame.fonts is Some ==> carries_font(frame.fonts->0, font_bytes->0@),
        final(overlay_state).shown() == shown_in_frame(read, old(overlay_state).shown()),
        frame.dialog@ == dialog_of(rate_view(overlay_fps), final(overlay_state).shown()),
        frame.info_bar@ == info_bar_of(final(overlay_state).shown()),
{
    let fonts = overlay_state.fonts.check(font_bytes);
    if let Some(fresh) = read {
        overlay_state.shown = fresh;
    }
    let dialog = DialogEsp::compose(overlay_fps, &overlay_state.shown);
    let info_bar = info_bar_ui(&overlay_state.shown);
    Frame { fonts, dialog, info_bar }
}

/// Whether the overlay's window takes part in pointer hit-testing: while
/// the Insert key is held down, and only then. At all other times the
/// pointer passes through to what lies below.
pub fn toggle_mouse_passthrough(insert_pressed: bool) -> (hit_test: bool)
    ensures
        hit_test == insert_pressed,
{
    insert_pressed
}

} // verus!
