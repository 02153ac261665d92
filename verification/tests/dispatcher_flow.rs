use mediadeck::commands::{DrawCommand, Effect};
use mediadeck::dispatcher::{Dispatcher, EnvSnapshot, Mode};
use mediadeck::fs_entry::{Entry, EntryKind};
use mediadeck::input::ButtonEvent;

fn entry(name: &str, kind: EntryKind, ext: Option<&str>, size: u64) -> Entry {
    Entry {
        name: name.to_string(),
        size,
        kind,
        extension: ext.map(|e| e.to_string()),
        mtime: 0,
    }
}

fn fixture_listing() -> Vec<Entry> {
    vec![
        entry("a.txt", EntryKind::File, Some("txt"), 10),
        entry("b.raw", EntryKind::File, Some("raw"), 3 * 153600),
        entry("c", EntryKind::Directory, None, 4096),
    ]
}

fn env_with(listing: Option<Vec<Entry>>, target: Option<Vec<Entry>>) -> EnvSnapshot {
    EnvSnapshot {
        listing,
        target_listing: target,
        clock_label: "9:00am".to_string(),
        current_frame: 0,
    }
}

fn fresh_dispatcher(file_count: usize) -> Dispatcher {
    Dispatcher::new(
        vec!["home".to_string(), "user".to_string()],
        "user".to_string(),
        file_count,
        "8:59am".to_string(),
    )
}

fn confirm_message(effects: &[Effect]) -> Option<String> {
    effects.iter().find_map(|e| match e {
        Effect::Draw(DrawCommand::ConfirmingBackground { message, .. }) => Some(message.clone()),
        _ => None,
    })
}

#[test]
fn end_to_end_select_error_scroll_confirm_play() {
    let mut d = fresh_dispatcher(3);
    assert_eq!(d.mode(), Mode::Navigating);
    assert_eq!(d.nav.current_index, 0);

    // Select on "a.txt": unsupported extension, error modal.
    let effects = d.handle_event(ButtonEvent::Select, &env_with(Some(fixture_listing()), None));
    assert_eq!(d.mode(), Mode::ErrorMessage);
    let msg = confirm_message(&effects).unwrap();
    assert!(msg.starts_with("Can not currently play this kind of file"));

    // Escape dismisses the error; the index is unchanged.
    d.handle_event(ButtonEvent::Escape, &env_with(None, None));
    assert_eq!(d.mode(), Mode::Navigating);
    assert_eq!(d.nav.current_index, 0);

    // Down moves the selection to "b.raw".
    d.handle_event(ButtonEvent::Down, &env_with(Some(fixture_listing()), None));
    assert_eq!(d.nav.current_index, 1);

    // Select opens the play confirmation for b.raw.
    let effects = d.handle_event(ButtonEvent::Select, &env_with(Some(fixture_listing()), None));
    assert_eq!(d.mode(), Mode::ConfirmingMediaSelection);
    assert_eq!(confirm_message(&effects).unwrap(), "Play video: b.raw?");
    let modal = d.modal.as_ref().unwrap();
    assert_eq!(modal.selected, 0);
    assert_eq!(modal.file.as_ref().unwrap().name, "b.raw");
    // Total frames derive from the file size at selection time.
    assert_eq!(d.playing.total_frames, 3);

    // Down highlights "Yes".
    let effects = d.handle_event(ButtonEvent::Down, &env_with(None, None));
    assert_eq!(d.modal.as_ref().unwrap().selected, 1);
    assert!(matches!(effects[..], [Effect::Draw(DrawCommand::SelectYes)]));

    // Select confirms: playback starts unpaused from the shared counter.
    let effects = d.handle_event(ButtonEvent::Select, &env_with(None, None));
    assert_eq!(d.mode(), Mode::PlayingSomething);
    assert!(!d.playing.paused);
    assert!(matches!(effects[0], Effect::SetPaused(false)));
    let spawned = effects.iter().any(|e| match e {
        Effect::SpawnPlayback { file: Some(f) } => {
            f.name == "b.raw" && f.path == vec!["home", "user", "b.raw"]
        },
        _ => false,
    });
    assert!(spawned);
}

#[test]
fn scroll_up_then_down_restores_index() {
    let mut d = fresh_dispatcher(3);
    d.nav.current_index = 1;
    let before = d.nav.current_index;
    d.handle_event(ButtonEvent::Up, &env_with(Some(fixture_listing()), None));
    assert_eq!(d.nav.current_index, 0);
    d.handle_event(ButtonEvent::Down, &env_with(Some(fixture_listing()), None));
    assert_eq!(d.nav.current_index, before);
}

#[test]
fn scroll_is_clamped_at_both_ends() {
    let mut d = fresh_dispatcher(3);
    let fx = || env_with(Some(fixture_listing()), None);
    let effects = d.handle_event(ButtonEvent::Up, &fx());
    assert_eq!(d.nav.current_index, 0);
    assert!(effects.is_empty());
    d.handle_event(ButtonEvent::Down, &fx());
    d.handle_event(ButtonEvent::Down, &fx());
    assert_eq!(d.nav.current_index, 2);
    let effects = d.handle_event(ButtonEvent::Down, &fx());
    assert_eq!(d.nav.current_index, 2);
    assert!(effects.is_empty());
}

#[test]
fn enter_then_exit_resets_index_to_zero() {
    let mut d = fresh_dispatcher(3);
    // Move onto the directory "c", then enter it.
    d.handle_event(ButtonEvent::Down, &env_with(Some(fixture_listing()), None));
    d.handle_event(ButtonEvent::Down, &env_with(Some(fixture_listing()), None));
    let original_index = 2;
    assert_eq!(d.nav.current_index, original_index);
    let child = vec![entry("inner.txt", EntryKind::File, Some("txt"), 1)];
    d.handle_event(ButtonEvent::Select, &env_with(Some(fixture_listing()), Some(child)));
    assert_eq!(d.mode(), Mode::Navigating);
    assert_eq!(d.nav.dir, vec!["home", "user", "c"]);
    assert_eq!(d.nav.current_index, 0);
    assert_eq!(d.nav.file_count, 1);
    // Exit back out: the original directory returns, but the index lands
    // on the fresh listing's start, not on the remembered position.
    let child = vec![entry("inner.txt", EntryKind::File, Some("txt"), 1)];
    d.handle_event(ButtonEvent::Escape, &env_with(Some(child), Some(fixture_listing())));
    assert_eq!(d.nav.dir, vec!["home", "user"]);
    assert_eq!(d.nav.current_index, 0);
    assert_ne!(d.nav.current_index, original_index);
}

#[test]
fn volume_clamps_at_one_hundred_and_zero() {
    let mut d = fresh_dispatcher(1);
    d.mode = Mode::PlayingSomething;
    for _ in 0..30 {
        d.handle_event(ButtonEvent::Up, &env_with(None, None));
        assert!(d.playing.volume <= 100);
        assert_eq!(d.playing.volume % 5, 0);
    }
    assert_eq!(d.playing.volume, 100);
    let effects = d.handle_event(ButtonEvent::Up, &env_with(None, None));
    assert!(effects.is_empty());
    for _ in 0..30 {
        d.handle_event(ButtonEvent::Down, &env_with(None, None));
        assert!(d.playing.volume <= 100);
    }
    assert_eq!(d.playing.volume, 0);
    let effects = d.handle_event(ButtonEvent::Down, &env_with(None, None));
    assert!(effects.is_empty());
}

#[test]
fn frame_tick_redraws_timestamp() {
    let mut d = fresh_dispatcher(1);
    d.mode = Mode::PlayingSomething;
    d.playing.total_frames = 240;
    let env = EnvSnapshot {
        listing: None,
        target_listing: None,
        clock_label: String::new(),
        current_frame: 48,
    };
    let effects = d.handle_event(ButtonEvent::CurrentFrameChanged, &env);
    assert_eq!(d.playing.drawn_timestamp, "0:02 / 0:10");
    // First the old timestamp is undrawn, then the new one drawn.
    match (&effects[0], &effects[1]) {
        (
            Effect::Draw(DrawCommand::DrawI2CText { content: old, undraw: true, screen: true, .. }),
            Effect::Draw(DrawCommand::DrawI2CText { content: new, undraw: false, screen: true, .. }),
        ) => {
            assert_eq!(old, "0:00 / 0:00");
            assert_eq!(new, "0:02 / 0:10");
        },
        _ => panic!("unexpected effects"),
    }
}

#[test]
fn pause_and_resume_respawn_playback() {
    let mut d = fresh_dispatcher(1);
    d.mode = Mode::PlayingSomething;
    d.modal = Some(mediadeck::dispatcher::ModalState {
        message: "Play video: b.raw?".to_string(),
        selected: 1,
        file: None,
    });
    // Escape pauses and opens the exit confirmation with "No" highlighted.
    let effects = d.handle_event(ButtonEvent::Escape, &env_with(None, None));
    assert_eq!(d.mode(), Mode::ConfirmingMediaExit);
    assert!(d.playing.paused);
    assert_eq!(d.modal.as_ref().unwrap().selected, 0);
    assert!(matches!(effects[0], Effect::SetPaused(true)));
    assert_eq!(confirm_message(&effects).unwrap(), "Exit to navigation menu?");
    // Escape again resumes: unpaused, engine respawned.
    let effects = d.handle_event(ButtonEvent::Escape, &env_with(None, None));
    assert_eq!(d.mode(), Mode::PlayingSomething);
    assert!(!d.playing.paused);
    assert!(matches!(effects[0], Effect::SetPaused(false)));
    assert!(effects.iter().any(|e| matches!(e, Effect::SpawnPlayback { .. })));
}

#[test]
fn confirm_exit_yes_returns_to_navigation() {
    let mut d = fresh_dispatcher(1);
    d.mode = Mode::ConfirmingMediaExit;
    d.modal = Some(mediadeck::dispatcher::ModalState {
        message: "Exit to navigation menu?".to_string(),
        selected: 0,
        file: None,
    });
    d.handle_event(ButtonEvent::Down, &env_with(None, None));
    assert_eq!(d.modal.as_ref().unwrap().selected, 1);
    let effects = d.handle_event(ButtonEvent::Select, &env_with(None, None));
    assert_eq!(d.mode(), Mode::Navigating);
    assert!(effects.iter().any(|e| matches!(
        e,
        Effect::Draw(DrawCommand::NavigatingBackground { .. })
    )));
}

#[test]
fn escape_at_root_shows_error() {
    let mut d = Dispatcher::new(vec![], "user".to_string(), 0, "8:59am".to_string());
    let effects = d.handle_event(ButtonEvent::Escape, &env_with(None, None));
    assert_eq!(d.mode(), Mode::ErrorMessage);
    assert_eq!(confirm_message(&effects).unwrap(), "Unknown error...");
}

#[test]
fn select_in_empty_directory_reports_error() {
    let mut d = fresh_dispatcher(0);
    let effects = d.handle_event(ButtonEvent::Select, &env_with(Some(vec![]), None));
    assert_eq!(d.mode(), Mode::ErrorMessage);
    assert_eq!(
        confirm_message(&effects).unwrap(),
        "There are no files or directories in this path."
    );
}

#[test]
fn select_file_without_extension_reports_error() {
    let mut d = fresh_dispatcher(1);
    let listing = vec![entry("noext", EntryKind::File, None, 5)];
    let effects = d.handle_event(ButtonEvent::Select, &env_with(Some(listing), None));
    assert_eq!(d.mode(), Mode::ErrorMessage);
    assert_eq!(
        confirm_message(&effects).unwrap(),
        "Filetype error: File can not be opened, must be either a .mp3, rgb565, or .raw file."
    );
}

#[test]
fn select_special_entry_reports_error() {
    let mut d = fresh_dispatcher(1);
    let listing = vec![entry("sock", EntryKind::Other, None, 0)];
    let effects = d.handle_event(ButtonEvent::Select, &env_with(Some(listing), None));
    assert_eq!(d.mode(), Mode::ErrorMessage);
    assert_eq!(
        confirm_message(&effects).unwrap(),
        "Filetype error: File can not be opened: must be either a .mp3, rgb565, or .raw file."
    );
}

#[test]
fn select_unreadable_entry_reports_error() {
    let mut d = fresh_dispatcher(1);
    let listing = vec![entry("bad", EntryKind::Unreadable, None, 0)];
    let effects = d.handle_event(ButtonEvent::Select, &env_with(Some(listing), None));
    assert_eq!(d.mode(), Mode::ErrorMessage);
    assert_eq!(confirm_message(&effects).unwrap(), "Unknown error: File could not be opened.");
}

#[test]
fn unreadable_directory_is_fatal_and_select_shuts_down() {
    let mut d = fresh_dispatcher(3);
    let effects = d.handle_event(ButtonEvent::Select, &env_with(None, None));
    assert_eq!(d.mode(), Mode::UnrecoverableError);
    assert_eq!(
        confirm_message(&effects).unwrap(),
        "Fatal error: the directory could not be read."
    );
    // Only select does anything now, and it asks for shutdown.
    let effects = d.handle_event(ButtonEvent::Escape, &env_with(None, None));
    assert!(effects.is_empty());
    let effects = d.handle_event(ButtonEvent::Select, &env_with(None, None));
    assert!(matches!(effects[..], [Effect::Shutdown]));
}

#[test]
fn time_tick_redraws_clock_only_while_navigating() {
    let mut d = fresh_dispatcher(3);
    let env = EnvSnapshot {
        listing: None,
        target_listing: None,
        clock_label: "9:01am".to_string(),
        current_frame: 0,
    };
    let effects = d.handle_event(ButtonEvent::TimeChanged, &env);
    assert_eq!(d.clock_label, "9:01am");
    match (&effects[0], &effects[1]) {
        (
            Effect::Draw(DrawCommand::Text { content: old, undraw: true, .. }),
            Effect::Draw(DrawCommand::Text { content: new, undraw: false, .. }),
        ) => {
            assert_eq!(old, "8:59am");
            assert_eq!(new, "9:01am");
        },
        _ => panic!("unexpected effects"),
    }
    // Outside navigation the tick is a no-op.
    d.mode = Mode::ConfirmingMediaExit;
    let effects = d.handle_event(ButtonEvent::TimeChanged, &env);
    assert!(effects.is_empty());
}

#[test]
fn scroll_emits_undraw_before_redraw() {
    let mut d = fresh_dispatcher(3);
    d.nav.current_index = 1;
    let effects = d.handle_event(ButtonEvent::Down, &env_with(Some(fixture_listing()), None));
    // The first command repaints (undraws) a slot; a later one draws the
    // new middle entry's name.
    assert!(matches!(
        effects[0],
        Effect::Draw(DrawCommand::DrawIcon { undraw: true, .. })
    ));
    let undraw_positions: Vec<usize> = effects
        .iter()
        .enumerate()
        .filter_map(|(i, e)| match e {
            Effect::Draw(DrawCommand::DrawIcon { undraw: true, .. }) => Some(i),
            _ => None,
        })
        .collect();
    let draw_positions: Vec<usize> = effects
        .iter()
        .enumerate()
        .filter_map(|(i, e)| match e {
            Effect::Draw(DrawCommand::DrawIcon { undraw: false, .. }) => Some(i),
            _ => None,
        })
        .collect();
    assert!(!undraw_positions.is_empty());
    assert!(!draw_positions.is_empty());
    assert!(undraw_positions.iter().max() < draw_positions.iter().min());
}

#[test]
fn startup_effects_paint_clock_and_navigation() {
    let d = fresh_dispatcher(3);
    let effects = d.startup_effects();
    assert_eq!(effects.len(), 3);
    assert!(matches!(
        effects[0],
        Effect::Draw(DrawCommand::Text { undraw: false, .. })
    ));
    assert!(matches!(effects[1], Effect::Draw(DrawCommand::ClearScreen)));
    assert!(matches!(
        effects[2],
        Effect::Draw(DrawCommand::NavigatingBackground { file_count: 3, current_index: 0, .. })
    ));
}

#[test]
fn modal_up_down_toggle_highlight() {
    let mut d = fresh_dispatcher(3);
    d.mode = Mode::ConfirmingMediaSelection;
    d.modal = Some(mediadeck::dispatcher::ModalState {
        message: "Play video: b.raw?".to_string(),
        selected: 0,
        file: None,
    });
    let effects = d.handle_event(ButtonEvent::Down, &env_with(None, None));
    assert_eq!(d.modal.as_ref().unwrap().selected, 1);
    assert!(matches!(effects[..], [Effect::Draw(DrawCommand::SelectYes)]));
    let effects = d.handle_event(ButtonEvent::Up, &env_with(None, None));
    assert_eq!(d.modal.as_ref().unwrap().selected, 0);
    assert!(matches!(effects[..], [Effect::Draw(DrawCommand::SelectNo)]));
    // Selecting "No" returns to navigation.
    let _ = d.handle_event(ButtonEvent::Select, &env_with(None, None));
    assert_eq!(d.mode(), Mode::Navigating);
}

#[test]
fn scroll_up_emits_exact_command_sequence() {
    // Two entries, selection on the second: scrolling up undraws the top
    // slot and the current slot's metadata, redraws the roles swapped, and
    // rewrites the index label from "2/2" to "1/2".
    let mut d = Dispatcher::new(
        vec!["home".to_string(), "user".to_string()],
        "user".to_string(),
        2,
        "8:59am".to_string(),
    );
    d.nav.current_index = 1;
    let listing = vec![
        entry("alpha", EntryKind::Directory, None, 0),
        entry("beta.raw", EntryKind::File, Some("raw"), 153600),
    ];
    let effects = d.handle_event(ButtonEvent::Up, &env_with(Some(listing), None));
    assert_eq!(d.nav.current_index, 0);
    assert_eq!(effects.len(), 14);
    let texts: Vec<(String, bool)> = effects
        .iter()
        .filter_map(|e| match e {
            Effect::Draw(DrawCommand::Text { content, undraw, .. }) => {
                Some((content.clone(), *undraw))
            },
            _ => None,
        })
        .collect();
    // Undraw phase first: "alpha" leaves the top slot, "beta.raw" leaves
    // the middle slot (with its size text); then the draw phase restores
    // them in swapped roles; the index label changes last.
    assert_eq!(texts[0], ("alpha".to_string(), true));
    assert_eq!(texts[1], ("150KB".to_string(), true));
    assert_eq!(texts[3], ("beta.raw".to_string(), true));
    assert_eq!(texts[4], ("beta.raw".to_string(), false));
    assert_eq!(texts[5], ("0B".to_string(), false));
    assert_eq!(texts[7], ("alpha".to_string(), false));
    assert_eq!(texts[8], ("2/2".to_string(), true));
    assert_eq!(texts[9], ("1/2".to_string(), false));
}

#[test]
fn enter_and_exit_redraw_path_labels() {
    let mut d = fresh_dispatcher(3);
    d.handle_event(ButtonEvent::Down, &env_with(Some(fixture_listing()), None));
    d.handle_event(ButtonEvent::Down, &env_with(Some(fixture_listing()), None));
    let child = vec![entry("inner.txt", EntryKind::File, Some("txt"), 1)];
    let effects =
        d.handle_event(ButtonEvent::Select, &env_with(Some(fixture_listing()), Some(child)));
    let path_texts: Vec<(String, bool)> = effects
        .iter()
        .filter_map(|e| match e {
            Effect::Draw(DrawCommand::Text { content, position, undraw, .. })
                if position.y == 28 =>
            {
                Some((content.clone(), *undraw))
            },
            _ => None,
        })
        .collect();
    // The old path (with the home component hidden) is undrawn, the new
    // one drawn.
    assert_eq!(path_texts, vec![("/home".to_string(), true), ("/home/c".to_string(), false)]);
}
