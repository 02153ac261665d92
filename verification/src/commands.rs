//! The render-queue protocol: immutable drawing commands, the dispatcher's
//! other outward effects, and the fixed screen positions they target.
//!
//! Commands are plain value messages; the render worker that owns the
//! framebuffer and the two status displays consumes them in arrival order.

use vstd::prelude::*;

use crate::fs_entry::{FileDetails, FileDetailsV, IconKind};

verus! {

/// A pixel position on the primary display.
#[derive(Clone, Copy, Debug, PartialEq, Eq, Structural)]
pub struct Pos {
    pub x: i32,
    pub y: i32,
}

/// Where the clock label sits in the navigation bar.
pub open spec fn clock_text_pos() -> Pos {
    Pos { x: 244, y: 16 }
}

/// Where the "position/count" index label sits in the navigation bar.
pub open spec fn file_index_pos() -> Pos {
    Pos { x: 46, y: 18 }
}

/// Where the current directory path sits in the navigation bar.
pub open spec fn nav_path_pos() -> Pos {
    Pos { x: 46, y: 28 }
}

/// Entry-name text positions of the three carousel slots.
pub open spec fn top_slot_text_pos() -> Pos {
    Pos { x: 50, y: 106 }
}

pub open spec fn middle_slot_text_pos() -> Pos {
    Pos { x: 50, y: 156 }
}

pub open spec fn bottom_slot_text_pos() -> Pos {
    Pos { x: 50, y: 206 }
}

/// Icon positions of the three carousel slots.
pub open spec fn top_slot_icon_pos() -> Pos {
    Pos { x: 20, y: 104 }
}

pub open spec fn middle_slot_icon_pos() -> Pos {
    Pos { x: 20, y: 154 }
}

pub open spec fn bottom_slot_icon_pos() -> Pos {
    Pos { x: 20, y: 204 }
}

/// Where the selected entry's size value is shown.
pub open spec fn meta_size_text_pos() -> Pos {
    Pos { x: 240, y: 130 }
}

/// Where the selected entry's modification time is shown.
pub open spec fn meta_modified_text_pos() -> Pos {
    Pos { x: 240, y: 150 }
}

/// Where the first status display shows the current display state.
pub open spec fn state_text_pos() -> Pos {
    Pos { x: 0, y: 0 }
}

/// Where the second status display shows the playback timestamp.
pub open spec fn timestamp_text_pos() -> Pos {
    Pos { x: 0, y: 0 }
}

/// Where the second status display shows the volume percentage.
pub open spec fn volume_value_pos() -> Pos {
    Pos { x: 64, y: 20 }
}

/// One drawing command sent over the render queue.
pub enum DrawCommand {
    /// Repaint the whole screen as a confirmation / error modal.
    ConfirmingBackground { message: String, options: Vec<String> },
    /// Repaint the whole screen as the navigation view of a directory.
    NavigatingBackground { dir: Vec<String>, file_count: usize, current_index: usize },
    /// Draw (or undraw, by repainting in the background ink) one text run.
    Text { content: String, position: Pos, undraw: bool, is_selected: bool },
    /// Blit one full raw frame onto the primary display.
    RawFrame { data: Vec<u8> },
    /// Clear the primary display.
    ClearScreen,
    /// Draw or undraw a text run on one of the two status displays.
    DrawI2CText { content: String, position: Pos, undraw: bool, screen: bool },
    /// Clear one of the two status displays.
    ClearI2CScreen { screen: bool },
    /// Highlight the modal's "Yes" option.
    SelectYes,
    /// Highlight the modal's "No" option.
    SelectNo,
    /// Draw or undraw a carousel icon.
    DrawIcon { point: Pos, kind: IconKind, undraw: bool },
}

/// The mathematical value of a [`DrawCommand`].
pub enum CmdV {
    ConfirmingBackground { message: Seq<char>, options: Seq<Seq<char>> },
    NavigatingBackground { dir: Seq<Seq<char>>, file_count: usize, current_index: usize },
    Text { content: Seq<char>, position: Pos, undraw: bool, is_selected: bool },
    RawFrame { data: Seq<u8> },
    ClearScreen,
    DrawI2CText { content: Seq<char>, position: Pos, undraw: bool, screen: bool },
    ClearI2CScreen { screen: bool },
    SelectYes,
    SelectNo,
    DrawIcon { point: Pos, kind: IconKind, undraw: bool },
}

impl View for DrawCommand {
    type V = CmdV;

    open spec fn view(&self) -> CmdV {
        match self {
            DrawCommand::ConfirmingBackground { message, options } => CmdV::ConfirmingBackground {
                message: message@,
                options: options.deep_view(),
            },
            DrawCommand::NavigatingBackground { dir, file_count, current_index } => (
            CmdV::NavigatingBackground {
                dir: dir.deep_view(),
                file_count: *file_count,
                current_index: *current_index,
            }),
            DrawCommand::Text { content, position, undraw, is_selected } => CmdV::Text {
                content: content@,
                position: *position,
                undraw: *undraw,
                is_selected: *is_selected,
            },
            DrawCommand::RawFrame { data } => CmdV::RawFrame { data: data@ },
            DrawCommand::ClearScreen => CmdV::ClearScreen,
            DrawCommand::DrawI2CText { content, position, undraw, screen } => CmdV::DrawI2CText {
                content: content@,
                position: *position,
                undraw: *undraw,
                screen: *screen,
            },
            DrawCommand::ClearI2CScreen { screen } => CmdV::ClearI2CScreen { screen: *screen },
            DrawCommand::SelectYes => CmdV::SelectYes,
            DrawCommand::SelectNo => CmdV::SelectNo,
            DrawCommand::DrawIcon { point, kind, undraw } => CmdV::DrawIcon {
                point: *point,
                kind: *kind,
                undraw: *undraw,
            },
        }
    }
}

impl DeepView for DrawCommand {
    type V = CmdV;

    open spec fn deep_view(&self) -> CmdV {
        self.view()
    }
}

/// One outward effect of a dispatcher transition, to be performed by the
/// surrounding event loop.
pub enum Effect {
    /// Enqueue a drawing command.
    Draw(DrawCommand),
    /// Store the shared pause flag the playback engine observes.
    SetPaused(bool),
    /// Spawn a playback engine task for the given file, resuming from the
    /// shared frame counter.
    SpawnPlayback { file: Option<FileDetails> },
    /// Terminate the appliance process.
    Shutdown,
}

/// The mathematical value of an [`Effect`].
pub enum EffectV {
    Draw(CmdV),
    SetPaused(bool),
    SpawnPlayback { file: Option<FileDetailsV> },
    Shutdown,
}

impl View for Effect {
    type V = EffectV;

    open spec fn view(&self) -> EffectV {
        match self {
            Effect::Draw(c) => EffectV::Draw(c@),
            Effect::SetPaused(b) => EffectV::SetPaused(*b),
            Effect::SpawnPlayback { file } => EffectV::SpawnPlayback {
                file: match file {
                    Option::Some(f) => Option::Some(f@),
                    Option::None => Option::None,
                },
            },
            Effect::Shutdown => EffectV::Shutdown,
        }
    }
}

impl DeepView for Effect {
    type V = EffectV;

    open spec fn deep_view(&self) -> EffectV {
        self.view()
    }
}

} // verus!
