//! Control logic for a small button-driven media browsing appliance.
//!
//! The crate models the appliance's interaction core: a finite display-state
//! machine driven by debounced button events, the windowed three-slot
//! carousel used for directory navigation, the frame-paced playback
//! arithmetic, and the label formatting that the two status displays show.
//! Device bindings (framebuffer, status displays, GPIO lines) live outside
//! this crate and consume the plain `DrawCommand` values produced here.

pub mod carousel;
pub mod commands;
pub mod dispatcher;
pub mod fs_entry;
pub mod input;
pub mod pixels;
pub mod playback;
pub mod timefmt;
pub mod text;
pub mod utils;
