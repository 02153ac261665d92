//! Frame-paced playback arithmetic: frame geometry, seek offsets, and the
//! per-iteration decision of the playback loop.
//!
//! The engine itself runs as an outside task that reads fixed-size frame
//! records; every decision it takes is computed here from plain values.

use vstd::prelude::*;

verus! {

/// Bytes of one raw frame record: the primary display's full geometry at
/// two bytes per pixel.
pub const FRAME_BYTES: u64 = 320 * 240 * 2;

/// Frames per second of the playback cadence.
pub const SCREEN_FPS: u64 = 24;

/// Milliseconds the engine sleeps between frames.
pub const FRAME_INTERVAL_MS: u64 = 42;

/// How many whole frame records a file of the given size holds.
pub fn total_frames_of(file_size: u64) -> (n: u64)
    ensures
        n == file_size / FRAME_BYTES,
{
    file_size / FRAME_BYTES
}

/// The byte offset playback resumes from when seeded with `frame`: exactly
/// `frame` whole records are skipped. `None` when the offset would not fit
/// in a byte count.
pub fn start_byte_offset(frame: u64) -> (r: Option<u64>)
    ensures
        r matches Some(offset) ==> offset == frame * FRAME_BYTES,
        r is Some <==> frame * FRAME_BYTES <= u64::MAX,
{
    if frame <= u64::MAX / FRAME_BYTES {
        proof {
            assert(frame * FRAME_BYTES <= (u64::MAX / FRAME_BYTES as u64) * FRAME_BYTES)
                by (nonlinear_arith)
                requires
                    frame <= u64::MAX / FRAME_BYTES as u64,
                    FRAME_BYTES > 0,
            ;
        }
        Some(frame * FRAME_BYTES)
    } else {
        proof {
            assert(frame * FRAME_BYTES > u64::MAX) by (nonlinear_arith)
                requires
                    frame > u64::MAX / FRAME_BYTES as u64,
                    FRAME_BYTES == 153600,
            ;
        }
        None
    }
}

/// What the playback loop does after one read attempt.
#[derive(Clone, Copy, Debug, PartialEq, Eq, Structural)]
pub enum PlaybackStep {
    /// Publish the frame just read, sleep one interval, advance the shared
    /// frame counter.
    EmitFrame,
    /// Stop the task: the pause flag was observed set. A later respawn
    /// resumes from the shared frame counter.
    StopPaused,
    /// Stop the task: the file held no further whole frame record.
    StopEnd,
}

/// Decides one iteration of the playback loop. The read happens first; a
/// short read ends the task regardless of the pause flag, and a set pause
/// flag ends it before the frame is published.
pub fn playback_step(read_ok: bool, paused: bool) -> (s: PlaybackStep)
    ensures
        s == (if !read_ok {
            PlaybackStep::StopEnd
        } else if paused {
            PlaybackStep::StopPaused
        } else {
            PlaybackStep::EmitFrame
        }),
{
    if !read_ok {
        PlaybackStep::StopEnd
    } else if paused {
        PlaybackStep::StopPaused
    } else {
        PlaybackStep::EmitFrame
    }
}

/// Decides whether the frame ticker should feed a frame-changed event to
/// the dispatcher: playback is running and a whole second boundary was
/// reached short of the end of the file.
pub fn should_emit_frame_changed(paused: bool, current_frame: u64, file_size: u64) -> (r: bool)
    ensures
        r == (!paused && current_frame > 0 && current_frame % SCREEN_FPS == 0 && current_frame
            != file_size / FRAME_BYTES),
{
    !paused && current_frame > 0 && current_frame % SCREEN_FPS == 0 && current_frame
        != file_size / FRAME_BYTES
}

} // verus!
