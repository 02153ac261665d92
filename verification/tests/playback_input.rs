use mediadeck::fs_entry::{icon_for_entry, is_playable_extension, Entry, EntryKind, IconKind};
use mediadeck::input::{ButtonEvent, PressDetector};
use mediadeck::carousel::visible_window;
use mediadeck::pixels::{pixel_byte_index, rgb565_to_bgr_bytes};
use mediadeck::playback::{
    playback_step, should_emit_frame_changed, start_byte_offset, total_frames_of, PlaybackStep,
    FRAME_BYTES,
};
use mediadeck::timefmt::modified_label;

fn entry(name: &str, kind: EntryKind, ext: Option<&str>) -> Entry {
    Entry {
        name: name.to_string(),
        size: 0,
        kind,
        extension: ext.map(|e| e.to_string()),
        mtime: 0,
    }
}

#[test]
fn total_frames_is_size_div_frame_bytes() {
    assert_eq!(FRAME_BYTES, 320 * 240 * 2);
    assert_eq!(total_frames_of(0), 0);
    assert_eq!(total_frames_of(FRAME_BYTES - 1), 0);
    assert_eq!(total_frames_of(10 * FRAME_BYTES + 5), 10);
}

#[test]
fn resume_seeks_to_frame_times_record_size() {
    assert_eq!(start_byte_offset(0), Some(0));
    assert_eq!(start_byte_offset(48), Some(48 * FRAME_BYTES));
    assert_eq!(start_byte_offset(u64::MAX), None);
}

#[test]
fn playback_loop_decisions() {
    assert_eq!(playback_step(false, false), PlaybackStep::StopEnd);
    assert_eq!(playback_step(false, true), PlaybackStep::StopEnd);
    assert_eq!(playback_step(true, true), PlaybackStep::StopPaused);
    assert_eq!(playback_step(true, false), PlaybackStep::EmitFrame);
}

#[test]
fn frame_ticker_decision() {
    let file_size = 100 * FRAME_BYTES;
    assert!(should_emit_frame_changed(false, 24, file_size));
    assert!(!should_emit_frame_changed(true, 24, file_size));
    assert!(!should_emit_frame_changed(false, 0, file_size));
    assert!(!should_emit_frame_changed(false, 25, file_size));
    // The final frame of the file is not announced.
    assert!(!should_emit_frame_changed(false, 24, 24 * FRAME_BYTES));
}

#[test]
fn debounce_requires_four_consecutive_highs() {
    let mut det = PressDetector::new();
    assert_eq!(det.sample(true, ButtonEvent::Select), None);
    assert_eq!(det.sample(true, ButtonEvent::Select), None);
    assert_eq!(det.sample(true, ButtonEvent::Select), None);
    assert_eq!(det.sample(true, ButtonEvent::Select), Some(ButtonEvent::Select));
    // A held button reports no further press.
    assert_eq!(det.sample(true, ButtonEvent::Select), None);
    // Releases never produce an event.
    for _ in 0..8 {
        assert_eq!(det.sample(false, ButtonEvent::Select), None);
    }
}

#[test]
fn debounce_bounce_is_filtered() {
    let mut det = PressDetector::new();
    assert_eq!(det.sample(true, ButtonEvent::Up), None);
    assert_eq!(det.sample(false, ButtonEvent::Up), None);
    assert_eq!(det.sample(true, ButtonEvent::Up), None);
    assert_eq!(det.sample(true, ButtonEvent::Up), None);
    assert_eq!(det.sample(true, ButtonEvent::Up), None);
    assert_eq!(det.sample(true, ButtonEvent::Up), Some(ButtonEvent::Up));
}

#[test]
fn icons_by_entry_kind_and_extension() {
    assert_eq!(icon_for_entry(&entry("c", EntryKind::Directory, None)), IconKind::Folder);
    assert_eq!(icon_for_entry(&entry("a.txt", EntryKind::File, Some("txt"))), IconKind::Txt);
    assert_eq!(icon_for_entry(&entry("x.rs", EntryKind::File, Some("rs"))), IconKind::Txt);
    assert_eq!(icon_for_entry(&entry("b.raw", EntryKind::File, Some("raw"))), IconKind::Video);
    assert_eq!(icon_for_entry(&entry("m.mp4", EntryKind::File, Some("mp4"))), IconKind::Video);
    assert_eq!(
        icon_for_entry(&entry("z.zip", EntryKind::File, Some("zip"))),
        IconKind::Questionmark
    );
    assert_eq!(icon_for_entry(&entry("noext", EntryKind::File, None)), IconKind::Questionmark);
    assert_eq!(icon_for_entry(&entry("sock", EntryKind::Other, None)), IconKind::Questionmark);
    assert_eq!(
        icon_for_entry(&entry("bad", EntryKind::Unreadable, Some("txt"))),
        IconKind::Questionmark
    );
}

#[test]
fn playable_extensions() {
    assert!(is_playable_extension("raw"));
    assert!(is_playable_extension("rgb565"));
    assert!(!is_playable_extension("mp4"));
    assert!(!is_playable_extension("txt"));
}

#[test]
fn window_at_edges() {
    assert_eq!(visible_window(3, 0), (None, Some(0), Some(1)));
    assert_eq!(visible_window(3, 1), (Some(0), Some(1), Some(2)));
    assert_eq!(visible_window(3, 2), (Some(1), Some(2), None));
    assert_eq!(visible_window(0, 0), (None, None, None));
}

#[test]
fn pixel_swizzle_swaps_red_and_blue() {
    // Pure red in RGB565 becomes pure blue.
    let (lo, hi) = rgb565_to_bgr_bytes(0xf800);
    assert_eq!((lo, hi), (0x1f, 0x00));
    // Pure blue becomes pure red.
    let (lo, hi) = rgb565_to_bgr_bytes(0x001f);
    assert_eq!((lo, hi), (0x00, 0xf8));
    // Green stays in place.
    let (lo, hi) = rgb565_to_bgr_bytes(0x07e0);
    assert_eq!((lo, hi), (0xe0, 0x07));
}

#[test]
fn pixel_index_row_major() {
    assert_eq!(pixel_byte_index(0, 0, 320, 240), 0);
    assert_eq!(pixel_byte_index(1, 0, 320, 240), 2);
    assert_eq!(pixel_byte_index(0, 1, 320, 240), 640);
    assert_eq!(pixel_byte_index(319, 239, 320, 240), 2 * (239 * 320 + 319));
}

#[test]
fn modification_label_of_epoch() {
    // Rendered from the timestamp alone: the epoch in naive UTC.
    assert_eq!(modified_label(0), "01-01-1970, 12:00am");
    // A concrete later instant: 2015-05-15 00:00:00 UTC.
    assert_eq!(modified_label(1431648000), "05-15-2015, 12:00am");
}
