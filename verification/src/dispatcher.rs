//! The state dispatcher: the single consumer of the event bus, sole owner
//! of the display state, and the only component that decides transitions.
//!
//! A transition is a pure step from the current state, the event, and a
//! snapshot of the environment (directory listings read by the caller, the
//! clock label, the shared frame counter) to the next state plus a sequence
//! of outward effects. The whole step function is mirrored by the spec
//! function [`spec_step`], which the executable dispatcher provably
//! implements.

use vstd::prelude::*;

use crate::carousel::{
    draws, enter_cmds, enter_effects, exit_cmds, exit_effects, scroll_down_cmds,
    scroll_down_effects, scroll_up_cmds, scroll_up_effects,
};
use crate::commands::{
    clock_text_pos, state_text_pos, timestamp_text_pos, volume_value_pos, CmdV, DrawCommand,
    Effect, EffectV, Pos,
};
use crate::fs_entry::{is_playable_ext, is_playable_extension, Entry, EntryKind, EntryV,
    FileDetails, FileDetailsV};
use crate::input::ButtonEvent;
use crate::playback::SCREEN_FPS;
use crate::timefmt::spec_modified_label;
use crate::timefmt::modified_label;
use crate::utils::{format_timecode, spec_timecode};
use crate::text::{format_percent, spec_percent_label};

verus! {

/// The display states. Exactly one is live at any time.
#[derive(Clone, Copy, Debug, PartialEq, Eq, Structural)]
pub enum Mode {
    Navigating,
    PlayingSomething,
    ConfirmingMediaSelection,
    ConfirmingMediaExit,
    ErrorMessage,
    UnrecoverableError,
}

/// A confirmation or error dialog: its message, which option is currently
/// highlighted (0 = "No"/"Okay", 1 = "Yes"), and the file it is about.
pub struct ModalState {
    pub message: String,
    pub selected: u8,
    pub file: Option<FileDetails>,
}

/// The mathematical value of a [`ModalState`].
pub struct ModalV {
    pub message: Seq<char>,
    pub selected: u8,
    pub file: Option<FileDetailsV>,
}

impl View for ModalState {
    type V = ModalV;

    open spec fn view(&self) -> ModalV {
        ModalV {
            message: self.message@,
            selected: self.selected,
            file: match self.file {
                Option::Some(f) => Option::Some(f@),
                Option::None => Option::None,
            },
        }
    }
}

/// Navigation state: the current directory as its path components below
/// the filesystem root, the selected index, and the cached entry count.
pub struct NavState {
    pub dir: Vec<String>,
    pub current_index: usize,
    pub file_count: usize,
}

/// The mathematical value of a [`NavState`].
pub struct NavV {
    pub dir: Seq<Seq<char>>,
    pub current_index: usize,
    pub file_count: usize,
}

impl View for NavState {
    type V = NavV;

    open spec fn view(&self) -> NavV {
        NavV {
            dir: self.dir.deep_view(),
            current_index: self.current_index,
            file_count: self.file_count,
        }
    }
}

/// Playback state the dispatcher owns: the pause flag it mirrors to the
/// engine, the frame count derived at selection time, the volume, and the
/// timestamp string currently drawn (kept to undraw it).
pub struct PlayingState {
    pub paused: bool,
    pub total_frames: u64,
    pub volume: u64,
    pub drawn_timestamp: String,
}

/// The mathematical value of a [`PlayingState`].
pub struct PlayingV {
    pub paused: bool,
    pub total_frames: u64,
    pub volume: u64,
    pub drawn_timestamp: Seq<char>,
}

impl View for PlayingState {
    type V = PlayingV;

    open spec fn view(&self) -> PlayingV {
        PlayingV {
            paused: self.paused,
            total_frames: self.total_frames,
            volume: self.volume,
            drawn_timestamp: self.drawn_timestamp@,
        }
    }
}

/// What the event loop read from the environment before dispatching one
/// event: the current directory's listing, the listing of the transition
/// target (the parent on escape, the selected child on select), the fresh
/// clock label, and the shared frame counter. `None` for a listing means
/// the directory could not be read.
pub struct EnvSnapshot {
    pub listing: Option<Vec<Entry>>,
    pub target_listing: Option<Vec<Entry>>,
    pub clock_label: String,
    pub current_frame: u64,
}

/// The mathematical value of an [`EnvSnapshot`].
pub struct EnvV {
    pub listing: Option<Seq<EntryV>>,
    pub target_listing: Option<Seq<EntryV>>,
    pub clock_label: Seq<char>,
    pub current_frame: u64,
}

impl View for EnvSnapshot {
    type V = EnvV;

    open spec fn view(&self) -> EnvV {
        EnvV {
            listing: match self.listing {
                Option::Some(l) => Option::Some(l.deep_view()),
                Option::None => Option::None,
            },
            target_listing: match self.target_listing {
                Option::Some(l) => Option::Some(l.deep_view()),
                Option::None => Option::None,
            },
            clock_label: self.clock_label@,
            current_frame: self.current_frame,
        }
    }
}

/// The dispatcher's whole state.
pub struct Dispatcher {
    pub mode: Mode,
    pub nav: NavState,
    pub playing: PlayingState,
    pub modal: Option<ModalState>,
    /// The browse root's owner component, hidden from displayed paths.
    pub home: String,
    /// The clock label most recently drawn in the navigation bar.
    pub clock_label: String,
}

/// The mathematical value of a [`Dispatcher`].
pub struct DispatcherV {
    pub mode: Mode,
    pub nav: NavV,
    pub playing: PlayingV,
    pub modal: Option<ModalV>,
    pub home: Seq<char>,
    pub clock_label: Seq<char>,
}

impl View for Dispatcher {
    type V = DispatcherV;

    open spec fn view(&self) -> DispatcherV {
        DispatcherV {
            mode: self.mode,
            nav: self.nav@,
            playing: self.playing@,
            modal: match self.modal {
                Option::Some(m) => Option::Some(m@),
                Option::None => Option::None,
            },
            home: self.home@,
            clock_label: self.clock_label@,
        }
    }
}

/// The navigation invariant: a nonempty listing keeps the index inside it,
/// an empty one pins the index at zero.
pub open spec fn nav_wf(n: NavV) -> bool {
    &&& n.file_count > 0 ==> n.current_index < n.file_count
    &&& n.file_count == 0 ==> n.current_index == 0
}

/// The playback invariant: the volume is a multiple of five within 0..=100.
pub open spec fn playing_wf(p: PlayingV) -> bool {
    p.volume <= 100 && p.volume % 5 == 0
}

/// Well-formedness of the whole dispatcher state.
pub open spec fn disp_wf(d: DispatcherV) -> bool {
    &&& nav_wf(d.nav)
    &&& playing_wf(d.playing)
    &&& (d.modal matches Some(m) ==> m.selected <= 1)
}

/// A text effect on the first status display's state banner.
pub open spec fn banner_eff(content: Seq<char>, undraw: bool) -> EffectV {
    EffectV::Draw(
        CmdV::DrawI2CText { content, position: state_text_pos(), undraw, screen: false },
    )
}

/// A text effect on the second status display.
pub open spec fn i2c2_eff(content: Seq<char>, pos: Pos, undraw: bool) -> EffectV {
    EffectV::Draw(CmdV::DrawI2CText { content, position: pos, undraw, screen: true })
}

/// A single-option ("Okay") modal background.
pub open spec fn confirm_one_eff(message: Seq<char>) -> EffectV {
    EffectV::Draw(CmdV::ConfirmingBackground { message, options: seq!["Okay"@] })
}

/// A two-option ("No!" / "Yes!") modal background.
pub open spec fn confirm_two_eff(message: Seq<char>) -> EffectV {
    EffectV::Draw(CmdV::ConfirmingBackground { message, options: seq!["No!"@, "Yes!"@] })
}

/// A full navigation-view repaint.
pub open spec fn nav_bg_eff(nav: NavV) -> EffectV {
    EffectV::Draw(
        CmdV::NavigatingBackground {
            dir: nav.dir,
            file_count: nav.file_count,
            current_index: nav.current_index,
        },
    )
}

/// A clock text effect in the navigation bar.
pub open spec fn clock_eff(content: Seq<char>, undraw: bool) -> EffectV {
    EffectV::Draw(
        CmdV::Text { content, position: clock_text_pos(), undraw, is_selected: false },
    )
}

/// The transition taken when a directory the dispatcher must read cannot
/// be read: an irrecoverable filesystem failure.
pub open spec fn spec_fatal(d: DispatcherV) -> (DispatcherV, Seq<EffectV>) {
    (
        DispatcherV {
            mode: Mode::UnrecoverableError,
            modal: Some(
                ModalV {
                    message: "Fatal error: the directory could not be read."@,
                    selected: 0,
                    file: None,
                },
            ),
            ..d
        },
        seq![
            confirm_one_eff("Fatal error: the directory could not be read."@),
            banner_eff("Navigating"@, true),
            banner_eff("FATAL ERROR!!"@, false),
        ],
    )
}

/// The transition into a dismissible error modal from a failed selection.
pub open spec fn spec_select_error(
    d: DispatcherV,
    msg: Seq<char>,
    file: Option<FileDetailsV>,
) -> (DispatcherV, Seq<EffectV>) {
    (
        DispatcherV {
            mode: Mode::ErrorMessage,
            modal: Some(ModalV { message: msg, selected: 0, file }),
            ..d
        },
        seq![confirm_one_eff(msg), banner_eff("Navigating"@, true), banner_eff("Error! x_x"@, false)],
    )
}

/// The file details carried into a modal about entry `e` selected in
/// directory `dir`.
pub open spec fn spec_file_details(dir: Seq<Seq<char>>, e: EntryV, ext: Seq<char>) -> FileDetailsV {
    FileDetailsV {
        path: dir.push(e.name),
        size: e.size,
        name: e.name,
        extension: ext,
        is_dir: false,
        last_modified: spec_modified_label(e.mtime),
    }
}

/// One dispatcher step while navigating.
pub open spec fn spec_step_navigating(d: DispatcherV, ev: ButtonEvent, env: EnvV) -> (
    DispatcherV,
    Seq<EffectV>,
) {
    let i = d.nav.current_index;
    let c = d.nav.file_count;
    match ev {
        ButtonEvent::Escape => {
            if d.nav.dir.len() == 0 {
                (
                    DispatcherV { mode: Mode::ErrorMessage, ..d },
                    seq![
                        banner_eff("Navigating"@, true),
                        banner_eff("Error! x_x"@, false),
                        confirm_one_eff("Unknown error..."@),
                    ],
                )
            } else {
                match (env.listing, env.target_listing) {
                    (Some(l), Some(pl)) => (
                        DispatcherV {
                            nav: NavV {
                                dir: d.nav.dir.drop_last(),
                                current_index: 0,
                                file_count: pl.len() as usize,
                            },
                            ..d
                        },
                        draws(
                            exit_cmds(
                                d.nav.dir,
                                d.nav.dir.drop_last(),
                                d.home,
                                l,
                                i as int,
                                c as int,
                                pl,
                            ),
                        ),
                    ),
                    _ => spec_fatal(d),
                }
            }
        },
        ButtonEvent::Select => match env.listing {
            None => spec_fatal(d),
            Some(l) => {
                if i < l.len() {
                    let e = l[i as int];
                    match e.kind {
                        EntryKind::Directory => match env.target_listing {
                            None => spec_fatal(d),
                            Some(nl) => (
                                DispatcherV {
                                    nav: NavV {
                                        dir: d.nav.dir.push(e.name),
                                        current_index: 0,
                                        file_count: nl.len() as usize,
                                    },
                                    ..d
                                },
                                draws(
                                    enter_cmds(
                                        d.nav.dir,
                                        d.nav.dir.push(e.name),
                                        d.home,
                                        l,
                                        i as int,
                                        c as int,
                                        nl,
                                    ),
                                ),
                            ),
                        },
                        EntryKind::File => match e.extension {
                            Some(ext) => {
                                if is_playable_ext(ext) {
                                    (
                                        DispatcherV {
                                            mode: Mode::ConfirmingMediaSelection,
                                            playing: PlayingV {
                                                total_frames: e.size / crate::playback::FRAME_BYTES,
                                                ..d.playing
                                            },
                                            modal: Some(
                                                ModalV {
                                                    message: "Play video: "@ + e.name + "?"@,
                                                    selected: 0,
                                                    file: Some(spec_file_details(d.nav.dir, e, ext)),
                                                },
                                            ),
                                            ..d
                                        },
                                        seq![
                                            confirm_two_eff("Play video: "@ + e.name + "?"@),
                                            banner_eff("Navigating"@, true),
                                            banner_eff("Confirm?"@, false),
                                        ],
                                    )
                                } else {
                                    spec_select_error(
                                        d,
                                        "Can not currently play this kind of file - handling of different files (such as txt's, and other basic formats) are in development!"@,
                                        Some(spec_file_details(d.nav.dir, e, ext)),
                                    )
                                }
                            },
                            None => spec_select_error(
                                d,
                                "Filetype error: File can not be opened, must be either a .mp3, rgb565, or .raw file."@,
                                None,
                            ),
                        },
                        EntryKind::Unreadable => spec_select_error(
                            d,
                            "Unknown error: File could not be opened."@,
                            None,
                        ),
                        EntryKind::Other => spec_select_error(
                            d,
                            "Filetype error: File can not be opened: must be either a .mp3, rgb565, or .raw file."@,
                            None,
                        ),
                    }
                } else {
                    spec_select_error(
                        d,
                        "There are no files or directories in this path."@,
                        None,
                    )
                }
            },
        },
        ButtonEvent::Up => {
            if c > 1 && i != 0 {
                match env.listing {
                    None => spec_fatal(d),
                    Some(l) => (
                        DispatcherV {
                            nav: NavV { current_index: (i - 1) as usize, ..d.nav },
                            ..d
                        },
                        draws(scroll_up_cmds(l, i as int, c as int)),
                    ),
                }
            } else {
                (d, Seq::empty())
            }
        },
        ButtonEvent::Down => {
            if c > 1 && i != (c - 1) as usize {
                match env.listing {
                    None => spec_fatal(d),
                    Some(l) => (
                        DispatcherV {
                            nav: NavV { current_index: (i + 1) as usize, ..d.nav },
                            ..d
                        },
                        draws(scroll_down_cmds(l, i as int, c as int)),
                    ),
                }
            } else {
                (d, Seq::empty())
            }
        },
        ButtonEvent::TimeChanged => (
            DispatcherV { clock_label: env.clock_label, ..d },
            seq![clock_eff(d.clock_label, true), clock_eff(env.clock_label, false)],
        ),
        ButtonEvent::CurrentFrameChanged => (d, Seq::empty()),
    }
}

/// One dispatcher step while confirming a media selection.
pub open spec fn spec_step_confirm_selection(d: DispatcherV, ev: ButtonEvent) -> (
    DispatcherV,
    Seq<EffectV>,
) {
    match ev {
        ButtonEvent::Escape => (
            DispatcherV {
                mode: Mode::Navigating,
                modal: match d.modal {
                    Some(m) => Some(ModalV { selected: 0, ..m }),
                    None => None,
                },
                ..d
            },
            seq![banner_eff("Confirm?"@, true), banner_eff("Navigating"@, false), nav_bg_eff(d.nav)],
        ),
        ButtonEvent::Select => match d.modal {
            None => (d, Seq::empty()),
            Some(m) => {
                if m.selected == 0 {
                    (
                        DispatcherV {
                            mode: Mode::Navigating,
                            modal: Some(ModalV { selected: 0, ..m }),
                            ..d
                        },
                        seq![
                            banner_eff("Confirm?"@, true),
                            banner_eff("Navigating"@, false),
                            nav_bg_eff(d.nav),
                        ],
                    )
                } else {
                    (
                        DispatcherV {
                            mode: Mode::PlayingSomething,
                            playing: PlayingV { paused: false, ..d.playing },
                            modal: Some(ModalV { selected: 0, ..m }),
                            ..d
                        },
                        seq![
                            EffectV::SetPaused(false),
                            banner_eff("Confirm?"@, true),
                            banner_eff("Playing media!"@, false),
                            EffectV::SpawnPlayback { file: m.file },
                        ],
                    )
                }
            },
        },
        ButtonEvent::Up => match d.modal {
            None => (d, Seq::empty()),
            Some(m) => (
                DispatcherV { modal: Some(ModalV { selected: 0, ..m }), ..d },
                seq![EffectV::Draw(CmdV::SelectNo)],
            ),
        },
        ButtonEvent::Down => match d.modal {
            None => (d, Seq::empty()),
            Some(m) => (
                DispatcherV { modal: Some(ModalV { selected: 1, ..m }), ..d },
                seq![EffectV::Draw(CmdV::SelectYes)],
            ),
        },
        _ => (d, Seq::empty()),
    }
}

/// One dispatcher step while media plays.
pub open spec fn spec_step_playing(d: DispatcherV, ev: ButtonEvent, env: EnvV) -> (
    DispatcherV,
    Seq<EffectV>,
) {
    match ev {
        ButtonEvent::Escape => (
            DispatcherV {
                mode: Mode::ConfirmingMediaExit,
                playing: PlayingV { paused: true, ..d.playing },
                modal: match d.modal {
                    Some(m) => Some(ModalV { selected: 0, ..m }),
                    None => None,
                },
                ..d
            },
            seq![
                EffectV::SetPaused(true),
                confirm_two_eff("Exit to navigation menu?"@),
                banner_eff("Playing media!"@, true),
                banner_eff("Exit media?"@, false),
            ],
        ),
        ButtonEvent::Up => {
            if d.playing.volume != 100 {
                (
                    DispatcherV {
                        playing: PlayingV { volume: (d.playing.volume + 5) as u64, ..d.playing },
                        ..d
                    },
                    seq![
                        i2c2_eff(spec_percent_label(d.playing.volume as nat), volume_value_pos(), true),
                        i2c2_eff(
                            spec_percent_label((d.playing.volume + 5) as nat),
                            volume_value_pos(),
                            false,
                        ),
                    ],
                )
            } else {
                (d, Seq::empty())
            }
        },
        ButtonEvent::Down => {
            if d.playing.volume != 0 {
                (
                    DispatcherV {
                        playing: PlayingV { volume: (d.playing.volume - 5) as u64, ..d.playing },
                        ..d
                    },
                    seq![
                        i2c2_eff(spec_percent_label(d.playing.volume as nat), volume_value_pos(), true),
                        i2c2_eff(
                            spec_percent_label((d.playing.volume - 5) as nat),
                            volume_value_pos(),
                            false,
                        ),
                    ],
                )
            } else {
                (d, Seq::empty())
            }
        },
        ButtonEvent::CurrentFrameChanged => {
            let new_ts = spec_timecode(
                env.current_frame as nat,
                d.playing.total_frames as nat,
                SCREEN_FPS as nat,
            );
            (
                DispatcherV {
                    playing: PlayingV { drawn_timestamp: new_ts, ..d.playing },
                    ..d
                },
                seq![
                    i2c2_eff(d.playing.drawn_timestamp, timestamp_text_pos(), true),
                    i2c2_eff(new_ts, timestamp_text_pos(), false),
                ],
            )
        },
        _ => (d, Seq::empty()),
    }
}

/// One dispatcher step while confirming a media exit.
pub open spec fn spec_step_confirm_exit(d: DispatcherV, ev: ButtonEvent) -> (
    DispatcherV,
    Seq<EffectV>,
) {
    let resume = (
        DispatcherV {
            mode: Mode::PlayingSomething,
            playing: PlayingV { paused: false, ..d.playing },
            modal: match d.modal {
                Some(m) => Some(ModalV { selected: 0, ..m }),
                None => None,
            },
            ..d
        },
        seq![
            EffectV::SetPaused(false),
            banner_eff("Exit media?"@, true),
            banner_eff("Playing media!"@, false),
            EffectV::SpawnPlayback {
                file: match d.modal {
                    Some(m) => m.file,
                    None => None,
                },
            },
        ],
    );
    match ev {
        ButtonEvent::Escape => match d.modal {
            None => (d, Seq::empty()),
            Some(m) => resume,
        },
        ButtonEvent::Select => match d.modal {
            None => (d, Seq::empty()),
            Some(m) => {
                if m.selected == 0 {
                    resume
                } else {
                    (
                        DispatcherV {
                            mode: Mode::Navigating,
                            modal: Some(ModalV { selected: 0, ..m }),
                            ..d
                        },
                        seq![
                            banner_eff("Exit media?"@, true),
                            banner_eff("Navigating"@, false),
                            nav_bg_eff(d.nav),
                        ],
                    )
                }
            },
        },
        ButtonEvent::Up => match d.modal {
            None => (d, Seq::empty()),
            Some(m) => (
                DispatcherV { modal: Some(ModalV { selected: 0, ..m }), ..d },
                seq![EffectV::Draw(CmdV::SelectNo)],
            ),
        },
        ButtonEvent::Down => match d.modal {
            None => (d, Seq::empty()),
            Some(m) => (
                DispatcherV { modal: Some(ModalV { selected: 1, ..m }), ..d },
                seq![EffectV::Draw(CmdV::SelectYes)],
            ),
        },
        _ => (d, Seq::empty()),
    }
}

/// One dispatcher step while an error message shows.
pub open spec fn spec_step_error(d: DispatcherV, ev: ButtonEvent) -> (DispatcherV, Seq<EffectV>) {
    match ev {
        ButtonEvent::Escape | ButtonEvent::Select => (
            DispatcherV { mode: Mode::Navigating, ..d },
            seq![
                banner_eff("Error! x_x"@, true),
                banner_eff("Navigating"@, false),
                nav_bg_eff(d.nav),
            ],
        ),
        _ => (d, Seq::empty()),
    }
}

/// One dispatcher step in the unrecoverable-error state.
pub open spec fn spec_step_unrecoverable(d: DispatcherV, ev: ButtonEvent) -> (
    DispatcherV,
    Seq<EffectV>,
) {
    match ev {
        ButtonEvent::Select => (d, seq![EffectV::Shutdown]),
        _ => (d, Seq::empty()),
    }
}

/// One full dispatcher step: the transition table keyed by state and event.
pub open spec fn spec_step(d: DispatcherV, ev: ButtonEvent, env: EnvV) -> (
    DispatcherV,
    Seq<EffectV>,
) {
    match d.mode {
        Mode::Navigating => spec_step_navigating(d, ev, env),
        Mode::ConfirmingMediaSelection => spec_step_confirm_selection(d, ev),
        Mode::PlayingSomething => spec_step_playing(d, ev, env),
        Mode::ConfirmingMediaExit => spec_step_confirm_exit(d, ev),
        Mode::ErrorMessage => spec_step_error(d, ev),
        Mode::UnrecoverableError => spec_step_unrecoverable(d, ev),
    }
}


fn clone_path(v: &Vec<String>) -> (r: Vec<String>)
    ensures
        r.deep_view() == v.deep_view(),
{
    let r = v.clone();
    proof {
        assert(r.deep_view() =~= v.deep_view());
    }
    r
}

fn push_effect(out: &mut Vec<Effect>, e: Effect)
    ensures
        final(out).deep_view() == old(out).deep_view().push(e@),
{
    let ghost ev = e@;
    out.push(e);
    proof {
        assert(out.deep_view() =~= old(out).deep_view().push(ev));
    }
}

fn push_banner(out: &mut Vec<Effect>, content: &str, undraw: bool)
    ensures
        final(out).deep_view() == old(out).deep_view().push(banner_eff(content@, undraw)),
{
    out.push(
        Effect::Draw(
            DrawCommand::DrawI2CText {
                content: content.to_owned(),
                position: Pos { x: 0, y: 0 },
                undraw,
                screen: false,
            },
        ),
    );
    proof {
        assert(out.deep_view() =~= old(out).deep_view().push(banner_eff(content@, undraw)));
    }
}

fn push_i2c2(out: &mut Vec<Effect>, content: String, pos: Pos, undraw: bool)
    ensures
        final(out).deep_view() == old(out).deep_view().push(i2c2_eff(content@, pos, undraw)),
{
    let ghost c = content@;
    out.push(
        Effect::Draw(DrawCommand::DrawI2CText { content, position: pos, undraw, screen: true }),
    );
    proof {
        assert(out.deep_view() =~= old(out).deep_view().push(i2c2_eff(c, pos, undraw)));
    }
}

fn push_clock(out: &mut Vec<Effect>, content: String, undraw: bool)
    ensures
        final(out).deep_view() == old(out).deep_view().push(clock_eff(content@, undraw)),
{
    let ghost c = content@;
    out.push(
        Effect::Draw(
            DrawCommand::Text {
                content,
                position: Pos { x: 244, y: 16 },
                undraw,
                is_selected: false,
            },
        ),
    );
    proof {
        assert(out.deep_view() =~= old(out).deep_view().push(clock_eff(c, undraw)));
    }
}

fn push_confirm_one(out: &mut Vec<Effect>, message: String)
    ensures
        final(out).deep_view() == old(out).deep_view().push(confirm_one_eff(message@)),
{
    let ghost msg = message@;
    let mut options: Vec<String> = Vec::new();
    options.push("Okay".to_owned());
    proof {
        assert(options.deep_view() =~= seq!["Okay"@]);
    }
    out.push(Effect::Draw(DrawCommand::ConfirmingBackground { message, options }));
    proof {
        assert(out.deep_view() =~= old(out).deep_view().push(confirm_one_eff(msg)));
    }
}

fn push_confirm_two(out: &mut Vec<Effect>, message: String)
    ensures
        final(out).deep_view() == old(out).deep_view().push(confirm_two_eff(message@)),
{
    let ghost msg = message@;
    let mut options: Vec<String> = Vec::new();
    options.push("No!".to_owned());
    options.push("Yes!".to_owned());
    proof {
        assert(options.deep_view() =~= seq!["No!"@, "Yes!"@]);
    }
    out.push(Effect::Draw(DrawCommand::ConfirmingBackground { message, options }));
    proof {
        assert(out.deep_view() =~= old(out).deep_view().push(confirm_two_eff(msg)));
    }
}

fn push_nav_bg(out: &mut Vec<Effect>, nav: &NavState)
    ensures
        final(out).deep_view() == old(out).deep_view().push(nav_bg_eff(nav@)),
{
    let dir = clone_path(&nav.dir);
    out.push(
        Effect::Draw(
            DrawCommand::NavigatingBackground {
                dir,
                file_count: nav.file_count,
                current_index: nav.current_index,
            },
        ),
    );
    proof {
        assert(out.deep_view() =~= old(out).deep_view().push(nav_bg_eff(nav@)));
    }
}

fn make_file_details(dir: &Vec<String>, e: &Entry, ext: &String) -> (f: FileDetails)
    ensures
        f@ == spec_file_details(dir.deep_view(), e@, ext@),
{
    let mut path = clone_path(dir);
    path.push(e.name.clone());
    let f = FileDetails {
        path,
        size: e.size,
        name: e.name.clone(),
        extension: ext.clone(),
        is_dir: false,
        last_modified: modified_label(e.mtime),
    };
    proof {
        assert(f@.path =~= spec_file_details(dir.deep_view(), e@, ext@).path);
        assert(f@ == spec_file_details(dir.deep_view(), e@, ext@));
    }
    f
}

impl Dispatcher {
    /// A dispatcher freshly started while navigating `dir`, which holds
    /// `file_count` entries, with the clock showing `clock_label`.
    pub fn new(dir: Vec<String>, home: String, file_count: usize, clock_label: String) -> (d:
        Dispatcher)
        ensures
            d@ == (DispatcherV {
                mode: Mode::Navigating,
                nav: NavV { dir: dir.deep_view(), current_index: 0, file_count },
                playing: PlayingV {
                    paused: false,
                    total_frames: 0,
                    volume: 0,
                    drawn_timestamp: "0:00 / 0:00"@,
                },
                modal: None,
                home: home@,
                clock_label: clock_label@,
            }),
            disp_wf(d@),
    {
        Dispatcher {
            mode: Mode::Navigating,
            nav: NavState { dir, current_index: 0, file_count },
            playing: PlayingState {
                paused: false,
                total_frames: 0,
                volume: 0,
                drawn_timestamp: "0:00 / 0:00".to_owned(),
            },
            modal: None,
            home,
            clock_label,
        }
    }

    /// The current display state.
    pub fn mode(&self) -> (m: Mode)
        ensures
            m == self@.mode,
    {
        self.mode
    }

    /// Whether navigation stands at the filesystem root, where escape
    /// cannot go further up.
    pub fn at_root(&self) -> (r: bool)
        ensures
            r == (self@.nav.dir.len() == 0),
    {
        self.nav.dir.len() == 0
    }

    /// The effects the appliance performs once at startup: draw the clock,
    /// clear the screen, paint the initial navigation view.
    pub fn startup_effects(&self) -> (r: Vec<Effect>)
        ensures
            r.deep_view() == seq![
                clock_eff(self@.clock_label, false),
                EffectV::Draw(CmdV::ClearScreen),
                nav_bg_eff(self@.nav),
            ],
    {
        let mut out: Vec<Effect> = Vec::new();
        push_clock(&mut out, self.clock_label.clone(), false);
        push_effect(&mut out, Effect::Draw(DrawCommand::ClearScreen));
        push_nav_bg(&mut out, &self.nav);
        proof {
            assert(out.deep_view() =~= seq![
                clock_eff(self@.clock_label, false),
                EffectV::Draw(CmdV::ClearScreen),
                nav_bg_eff(self@.nav),
            ]);
        }
        out
    }

    fn go_fatal(&mut self) -> (r: Vec<Effect>)
        ensures
            final(self)@ == spec_fatal(old(self)@).0,
            r.deep_view() == spec_fatal(old(self)@).1,
    {
        self.mode = Mode::UnrecoverableError;
        self.modal = Some(
            ModalState {
                message: "Fatal error: the directory could not be read.".to_owned(),
                selected: 0,
                file: None,
            },
        );
        let mut out: Vec<Effect> = Vec::new();
        push_confirm_one(&mut out, "Fatal error: the directory could not be read.".to_owned());
        push_banner(&mut out, "Navigating", true);
        push_banner(&mut out, "FATAL ERROR!!", false);
        proof {
            assert(out.deep_view() =~= spec_fatal(old(self)@).1);
        }
        out
    }

    fn go_select_error(&mut self, msg: String, file: Option<FileDetails>) -> (r: Vec<Effect>)
        ensures
            ({
                let fv = match file {
                    Option::Some(f) => Option::Some(f@),
                    Option::None => Option::None::<FileDetailsV>,
                };
                &&& final(self)@ == spec_select_error(old(self)@, msg@, fv).0
                &&& r.deep_view() == spec_select_error(old(self)@, msg@, fv).1
            }),
    {
        let ghost msgv = msg@;
        self.mode = Mode::ErrorMessage;
        let mut out: Vec<Effect> = Vec::new();
        push_confirm_one(&mut out, msg.clone());
        push_banner(&mut out, "Navigating", true);
        push_banner(&mut out, "Error! x_x", false);
        self.modal = Some(ModalState { message: msg, selected: 0, file });
        proof {
            assert(out.deep_view() =~= spec_select_error(old(self)@, msgv, self@.modal->Some_0.file).1);
        }
        out
    }

    fn on_navigating(&mut self, ev: ButtonEvent, env: &EnvSnapshot) -> (r: Vec<Effect>)
        requires
            disp_wf(old(self)@),
        ensures
            final(self)@ == spec_step_navigating(old(self)@, ev, env@).0,
            r.deep_view() == spec_step_navigating(old(self)@, ev, env@).1,
    {
        match ev {
            ButtonEvent::Escape => {
                if self.nav.dir.len() == 0 {
                    self.mode = Mode::ErrorMessage;
                    let mut out: Vec<Effect> = Vec::new();
                    push_banner(&mut out, "Navigating", true);
                    push_banner(&mut out, "Error! x_x", false);
                    push_confirm_one(&mut out, "Unknown error...".to_owned());
                    proof {
                        assert(out.deep_view() =~= spec_step_navigating(old(self)@, ev, env@).1);
                    }
                    out
                } else {
                    match (&env.listing, &env.target_listing) {
                        (Some(l), Some(pl)) => {
                            let mut new_dir = clone_path(&self.nav.dir);
                            new_dir.pop();
                            proof {
                                assert(new_dir.deep_view() =~= old(self)@.nav.dir.drop_last());
                            }
                            let mut out: Vec<Effect> = Vec::new();
                            exit_effects(
                                &mut out,
                                &self.nav.dir,
                                &new_dir,
                                &self.home,
                                l,
                                self.nav.current_index,
                                self.nav.file_count,
                                pl,
                            );
                            self.nav.dir = new_dir;
                            self.nav.current_index = 0;
                            self.nav.file_count = pl.len();
                            proof {
                                assert(final(self)@ == spec_step_navigating(old(self)@, ev, env@).0);
                                assert(out.deep_view() =~= spec_step_navigating(
                                    old(self)@,
                                    ev,
                                    env@,
                                ).1);
                            }
                            out
                        },
                        _ => self.go_fatal(),
                    }
                }
            },
            ButtonEvent::Select => {
                match &env.listing {
                    None => self.go_fatal(),
                    Some(l) => {
                        let idx = self.nav.current_index;
                        if idx < l.len() {
                            match l[idx].kind {
                                EntryKind::Directory => {
                                    match &env.target_listing {
                                        None => self.go_fatal(),
                                        Some(nl) => {
                                            let mut new_dir = clone_path(&self.nav.dir);
                                            new_dir.push(l[idx].name.clone());
                                            proof {
                                                assert(new_dir.deep_view()
                                                    =~= old(self)@.nav.dir.push(l[idx as int]@.name));
                                            }
                                            let mut out: Vec<Effect> = Vec::new();
                                            enter_effects(
                                                &mut out,
                                                &self.nav.dir,
                                                &new_dir,
                                                &self.home,
                                                l,
                                                idx,
                                                self.nav.file_count,
                                                nl,
                                            );
                                            self.nav.dir = new_dir;
                                            self.nav.current_index = 0;
                                            self.nav.file_count = nl.len();
                                            proof {
                                                assert(final(self)@ == spec_step_navigating(
                                                    old(self)@,
                                                    ev,
                                                    env@,
                                                ).0);
                                                assert(out.deep_view() =~= spec_step_navigating(
                                                    old(self)@,
                                                    ev,
                                                    env@,
                                                ).1);
                                            }
                                            out
                                        },
                                    }
                                },
                                EntryKind::File => {
                                    match &l[idx].extension {
                                        Some(ext) => {
                                            if is_playable_extension(ext.as_str()) {
                                                let mut msg = String::from_str("Play video: ");
                                                msg.append(l[idx].name.as_str());
                                                msg.append("?");
                                                let details = make_file_details(
                                                    &self.nav.dir,
                                                    &l[idx],
                                                    ext,
                                                );
                                                self.playing.total_frames =
                                                    crate::playback::total_frames_of(l[idx].size);
                                                self.modal = Some(
                                                    ModalState {
                                                        message: msg.clone(),
                                                        selected: 0,
                                                        file: Some(details),
                                                    },
                                                );
                                                self.mode = Mode::ConfirmingMediaSelection;
                                                let mut out: Vec<Effect> = Vec::new();
                                                push_confirm_two(&mut out, msg);
                                                push_banner(&mut out, "Navigating", true);
                                                push_banner(&mut out, "Confirm?", false);
                                                proof {
                                                    assert(final(self)@ == spec_step_navigating(
                                                        old(self)@,
                                                        ev,
                                                        env@,
                                                    ).0);
                                                    assert(out.deep_view()
                                                        =~= spec_step_navigating(
                                                        old(self)@,
                                                        ev,
                                                        env@,
                                                    ).1);
                                                }
                                                out
                                            } else {
                                                let details = make_file_details(
                                                    &self.nav.dir,
                                                    &l[idx],
                                                    ext,
                                                );
                                                self.go_select_error(
                                                    "Can not currently play this kind of file - handling of different files (such as txt's, and other basic formats) are in development!".to_owned(),
                                                    Some(details),
                                                )
                                            }
                                        },
                                        None => self.go_select_error(
                                            "Filetype error: File can not be opened, must be either a .mp3, rgb565, or .raw file.".to_owned(),
                                            None,
                                        ),
                                    }
                                },
                                EntryKind::Unreadable => self.go_select_error(
                                    "Unknown error: File could not be opened.".to_owned(),
                                    None,
                                ),
                                EntryKind::Other => self.go_select_error(
                                    "Filetype error: File can not be opened: must be either a .mp3, rgb565, or .raw file.".to_owned(),
                                    None,
                                ),
                            }
                        } else {
                            self.go_select_error(
                                "There are no files or directories in this path.".to_owned(),
                                None,
                            )
                        }
                    },
                }
            },
            ButtonEvent::Up => {
                if self.nav.file_count > 1 && self.nav.current_index != 0 {
                    match &env.listing {
                        None => self.go_fatal(),
                        Some(l) => {
                            let mut out: Vec<Effect> = Vec::new();
                            scroll_up_effects(
                                &mut out,
                                l,
                                self.nav.current_index,
                                self.nav.file_count,
                            );
                            self.nav.current_index = self.nav.current_index - 1;
                            proof {
                                assert(final(self)@ == spec_step_navigating(old(self)@, ev, env@).0);
                                assert(out.deep_view() =~= spec_step_navigating(
                                    old(self)@,
                                    ev,
                                    env@,
                                ).1);
                            }
                            out
                        },
                    }
                } else {
                    let out: Vec<Effect> = Vec::new();
                    proof {
                        assert(out.deep_view() =~= Seq::<EffectV>::empty());
                    }
                    out
                }
            },
            ButtonEvent::Down => {
                if self.nav.file_count > 1 && self.nav.current_index != self.nav.file_count - 1 {
                    match &env.listing {
                        None => self.go_fatal(),
                        Some(l) => {
                            let mut out: Vec<Effect> = Vec::new();
                            scroll_down_effects(
                                &mut out,
                                l,
                                self.nav.current_index,
                                self.nav.file_count,
                            );
                            self.nav.current_index = self.nav.current_index + 1;
                            proof {
                                assert(final(self)@ == spec_step_navigating(old(self)@, ev, env@).0);
                                assert(out.deep_view() =~= spec_step_navigating(
                                    old(self)@,
                                    ev,
                                    env@,
                                ).1);
                            }
                            out
                        },
                    }
                } else {
                    let out: Vec<Effect> = Vec::new();
                    proof {
                        assert(out.deep_view() =~= Seq::<EffectV>::empty());
                    }
                    out
                }
            },
            ButtonEvent::TimeChanged => {
                let mut out: Vec<Effect> = Vec::new();
                push_clock(&mut out, self.clock_label.clone(), true);
                push_clock(&mut out, env.clock_label.clone(), false);
                self.clock_label = env.clock_label.clone();
                proof {
                    assert(final(self)@ == spec_step_navigating(old(self)@, ev, env@).0);
                    assert(out.deep_view() =~= spec_step_navigating(old(self)@, ev, env@).1);
                }
                out
            },
            ButtonEvent::CurrentFrameChanged => {
                let out: Vec<Effect> = Vec::new();
                proof {
                    assert(out.deep_view() =~= Seq::<EffectV>::empty());
                }
                out
            },
        }
    }

    fn on_confirm_selection(&mut self, ev: ButtonEvent) -> (r: Vec<Effect>)
        requires
            disp_wf(old(self)@),
        ensures
            final(self)@ == spec_step_confirm_selection(old(self)@, ev).0,
            r.deep_view() == spec_step_confirm_selection(old(self)@, ev).1,
    {
        match ev {
            ButtonEvent::Escape => {
                if self.modal.is_some() {
                    let mut m = self.modal.take().unwrap();
                    m.selected = 0;
                    self.modal = Some(m);
                }
                self.mode = Mode::Navigating;
                let mut out: Vec<Effect> = Vec::new();
                push_banner(&mut out, "Confirm?", true);
                push_banner(&mut out, "Navigating", false);
                push_nav_bg(&mut out, &self.nav);
                proof {
                    assert(final(self)@ == spec_step_confirm_selection(old(self)@, ev).0);
                    assert(out.deep_view() =~= spec_step_confirm_selection(old(self)@, ev).1);
                }
                out
            },
            ButtonEvent::Select => {
                if self.modal.is_none() {
                    let out: Vec<Effect> = Vec::new();
                    proof {
                        assert(out.deep_view() =~= Seq::<EffectV>::empty());
                    }
                    out
                } else {
                    let mut m = self.modal.take().unwrap();
                    if m.selected == 0 {
                        m.selected = 0;
                        self.modal = Some(m);
                        self.mode = Mode::Navigating;
                        let mut out: Vec<Effect> = Vec::new();
                        push_banner(&mut out, "Confirm?", true);
                        push_banner(&mut out, "Navigating", false);
                        push_nav_bg(&mut out, &self.nav);
                        proof {
                            assert(final(self)@ == spec_step_confirm_selection(old(self)@, ev).0);
                            assert(out.deep_view() =~= spec_step_confirm_selection(
                                old(self)@,
                                ev,
                            ).1);
                        }
                        out
                    } else {
                        self.playing.paused = false;
                        self.mode = Mode::PlayingSomething;
                        let file_copy = match &m.file {
                            Some(f) => Some(f.duplicate()),
                            None => None,
                        };
                        m.selected = 0;
                        self.modal = Some(m);
                        let mut out: Vec<Effect> = Vec::new();
                        push_effect(&mut out, Effect::SetPaused(false));
                        push_banner(&mut out, "Confirm?", true);
                        push_banner(&mut out, "Playing media!", false);
                        push_effect(&mut out, Effect::SpawnPlayback { file: file_copy });
                        proof {
                            assert(final(self)@ == spec_step_confirm_selection(old(self)@, ev).0);
                            assert(out.deep_view() =~= spec_step_confirm_selection(
                                old(self)@,
                                ev,
                            ).1);
                        }
                        out
                    }
                }
            },
            ButtonEvent::Up => {
                if self.modal.is_none() {
                    let out: Vec<Effect> = Vec::new();
                    proof {
                        assert(out.deep_view() =~= Seq::<EffectV>::empty());
                    }
                    out
                } else {
                    let mut m = self.modal.take().unwrap();
                    m.selected = 0;
                    self.modal = Some(m);
                    let mut out: Vec<Effect> = Vec::new();
                    push_effect(&mut out, Effect::Draw(DrawCommand::SelectNo));
                    proof {
                        assert(final(self)@ == spec_step_confirm_selection(old(self)@, ev).0);
                        assert(out.deep_view() =~= spec_step_confirm_selection(old(self)@, ev).1);
                    }
                    out
                }
            },
            ButtonEvent::Down => {
                if self.modal.is_none() {
                    let out: Vec<Effect> = Vec::new();
                    proof {
                        assert(out.deep_view() =~= Seq::<EffectV>::empty());
                    }
                    out
                } else {
                    let mut m = self.modal.take().unwrap();
                    m.selected = 1;
                    self.modal = Some(m);
                    let mut out: Vec<Effect> = Vec::new();
                    push_effect(&mut out, Effect::Draw(DrawCommand::SelectYes));
                    proof {
                        assert(final(self)@ == spec_step_confirm_selection(old(self)@, ev).0);
                        assert(out.deep_view() =~= spec_step_confirm_selection(old(self)@, ev).1);
                    }
                    out
                }
            },
            _ => {
                let out: Vec<Effect> = Vec::new();
                proof {
                    assert(out.deep_view() =~= Seq::<EffectV>::empty());
                }
                out
            },
        }
    }

    fn on_playing(&mut self, ev: ButtonEvent, env: &EnvSnapshot) -> (r: Vec<Effect>)
        requires
            disp_wf(old(self)@),
        ensures
            final(self)@ == spec_step_playing(old(self)@, ev, env@).0,
            r.deep_view() == spec_step_playing(old(self)@, ev, env@).1,
    {
        match ev {
            ButtonEvent::Escape => {
                self.playing.paused = true;
                self.mode = Mode::ConfirmingMediaExit;
                if self.modal.is_some() {
                    let mut m = self.modal.take().unwrap();
                    m.selected = 0;
                    self.modal = Some(m);
                }
                let mut out: Vec<Effect> = Vec::new();
                push_effect(&mut out, Effect::SetPaused(true));
                push_confirm_two(&mut out, "Exit to navigation menu?".to_owned());
                push_banner(&mut out, "Playing media!", true);
                push_banner(&mut out, "Exit media?", false);
                proof {
                    assert(final(self)@ == spec_step_playing(old(self)@, ev, env@).0);
                    assert(out.deep_view() =~= spec_step_playing(old(self)@, ev, env@).1);
                }
                out
            },
            ButtonEvent::Up => {
                if self.playing.volume != 100 {
                    let old_label = format_percent(self.playing.volume);
                    self.playing.volume = self.playing.volume + 5;
                    let new_label = format_percent(self.playing.volume);
                    let mut out: Vec<Effect> = Vec::new();
                    push_i2c2(&mut out, old_label, Pos { x: 64, y: 20 }, true);
                    push_i2c2(&mut out, new_label, Pos { x: 64, y: 20 }, false);
                    proof {
                        assert(final(self)@ == spec_step_playing(old(self)@, ev, env@).0);
                        assert(out.deep_view() =~= spec_step_playing(old(self)@, ev, env@).1);
                    }
                    out
                } else {
                    let out: Vec<Effect> = Vec::new();
                    proof {
                        assert(out.deep_view() =~= Seq::<EffectV>::empty());
                    }
                    out
                }
            },
            ButtonEvent::Down => {
                if self.playing.volume != 0 {
                    let old_label = format_percent(self.playing.volume);
                    self.playing.volume = self.playing.volume - 5;
                    let new_label = format_percent(self.playing.volume);
                    let mut out: Vec<Effect> = Vec::new();
                    push_i2c2(&mut out, old_label, Pos { x: 64, y: 20 }, true);
                    push_i2c2(&mut out, new_label, Pos { x: 64, y: 20 }, false);
                    proof {
                        assert(final(self)@ == spec_step_playing(old(self)@, ev, env@).0);
                        assert(out.deep_view() =~= spec_step_playing(old(self)@, ev, env@).1);
                    }
                    out
                } else {
                    let out: Vec<Effect> = Vec::new();
                    proof {
                        assert(out.deep_view() =~= Seq::<EffectV>::empty());
                    }
                    out
                }
            },
            ButtonEvent::CurrentFrameChanged => {
                let new_ts = format_timecode(
                    env.current_frame,
                    self.playing.total_frames,
                    SCREEN_FPS,
                );
                let mut out: Vec<Effect> = Vec::new();
                push_i2c2(&mut out, self.playing.drawn_timestamp.clone(), Pos { x: 0, y: 0 }, true);
                push_i2c2(&mut out, new_ts.clone(), Pos { x: 0, y: 0 }, false);
                self.playing.drawn_timestamp = new_ts;
                proof {
                    assert(final(self)@ == spec_step_playing(old(self)@, ev, env@).0);
                    assert(out.deep_view() =~= spec_step_playing(old(self)@, ev, env@).1);
                }
                out
            },
            _ => {
                let out: Vec<Effect> = Vec::new();
                proof {
                    assert(out.deep_view() =~= Seq::<EffectV>::empty());
                }
                out
            },
        }
    }

    fn resume_playing(&mut self) -> (r: Vec<Effect>)
        requires
            old(self).modal is Some,
        ensures
            final(self)@ == spec_step_confirm_exit(old(self)@, ButtonEvent::Escape).0,
            r.deep_view() == spec_step_confirm_exit(old(self)@, ButtonEvent::Escape).1,
    {
        self.playing.paused = false;
        self.mode = Mode::PlayingSomething;
        let mut m = self.modal.take().unwrap();
        let file_copy = match &m.file {
            Some(f) => Some(f.duplicate()),
            None => None,
        };
        m.selected = 0;
        self.modal = Some(m);
        let mut out: Vec<Effect> = Vec::new();
        push_effect(&mut out, Effect::SetPaused(false));
        push_banner(&mut out, "Exit media?", true);
        push_banner(&mut out, "Playing media!", false);
        push_effect(&mut out, Effect::SpawnPlayback { file: file_copy });
        proof {
            assert(final(self)@ == spec_step_confirm_exit(old(self)@, ButtonEvent::Escape).0);
            assert(out.deep_view() =~= spec_step_confirm_exit(old(self)@, ButtonEvent::Escape).1);
        }
        out
    }

    fn on_confirm_exit(&mut self, ev: ButtonEvent) -> (r: Vec<Effect>)
        requires
            disp_wf(old(self)@),
        ensures
            final(self)@ == spec_step_confirm_exit(old(self)@, ev).0,
            r.deep_view() == spec_step_confirm_exit(old(self)@, ev).1,
    {
        match ev {
            ButtonEvent::Escape => {
                if self.modal.is_none() {
                    let out: Vec<Effect> = Vec::new();
                    proof {
                        assert(out.deep_view() =~= Seq::<EffectV>::empty());
                    }
                    out
                } else {
                    self.resume_playing()
                }
            },
            ButtonEvent::Select => {
                if self.modal.is_none() {
                    let out: Vec<Effect> = Vec::new();
                    proof {
                        assert(out.deep_view() =~= Seq::<EffectV>::empty());
                    }
                    out
                } else {
                    let selected = match &self.modal {
                        Some(m) => m.selected,
                        None => 0,
                    };
                    if selected == 0 {
                        let r = self.resume_playing();
                        proof {
                            assert(final(self)@ == spec_step_confirm_exit(old(self)@, ev).0);
                            assert(r.deep_view() =~= spec_step_confirm_exit(old(self)@, ev).1);
                        }
                        r
                    } else {
                        let mut m = self.modal.take().unwrap();
                        m.selected = 0;
                        self.modal = Some(m);
                        self.mode = Mode::Navigating;
                        let mut out: Vec<Effect> = Vec::new();
                        push_banner(&mut out, "Exit media?", true);
                        push_banner(&mut out, "Navigating", false);
                        push_nav_bg(&mut out, &self.nav);
                        proof {
                            assert(final(self)@ == spec_step_confirm_exit(old(self)@, ev).0);
                            assert(out.deep_view() =~= spec_step_confirm_exit(old(self)@, ev).1);
                        }
                        out
                    }
                }
            },
            ButtonEvent::Up => {
                if self.modal.is_none() {
                    let out: Vec<Effect> = Vec::new();
                    proof {
                        assert(out.deep_view() =~= Seq::<EffectV>::empty());
                    }
                    out
                } else {
                    let mut m = self.modal.take().unwrap();
                    m.selected = 0;
                    self.modal = Some(m);
                    let mut out: Vec<Effect> = Vec::new();
                    push_effect(&mut out, Effect::Draw(DrawCommand::SelectNo));
                    proof {
                        assert(final(self)@ == spec_step_confirm_exit(old(self)@, ev).0);
                        assert(out.deep_view() =~= spec_step_confirm_exit(old(self)@, ev).1);
                    }
                    out
                }
            },
            ButtonEvent::Down => {
                if self.modal.is_none() {
                    let out: Vec<Effect> = Vec::new();
                    proof {
                        assert(out.deep_view() =~= Seq::<EffectV>::empty());
                    }
                    out
                } else {
                    let mut m = self.modal.take().unwrap();
                    m.selected = 1;
                    self.modal = Some(m);
                    let mut out: Vec<Effect> = Vec::new();
                    push_effect(&mut out, Effect::Draw(DrawCommand::SelectYes));
                    proof {
                        assert(final(self)@ == spec_step_confirm_exit(old(self)@, ev).0);
                        assert(out.deep_view() =~= spec_step_confirm_exit(old(self)@, ev).1);
                    }
                    out
                }
            },
            _ => {
                let out: Vec<Effect> = Vec::new();
                proof {
                    assert(out.deep_view() =~= Seq::<EffectV>::empty());
                }
                out
            },
        }
    }

    fn on_error(&mut self, ev: ButtonEvent) -> (r: Vec<Effect>)
        ensures
            final(self)@ == spec_step_error(old(self)@, ev).0,
            r.deep_view() == spec_step_error(old(self)@, ev).1,
    {
        match ev {
            ButtonEvent::Escape | ButtonEvent::Select => {
                self.mode = Mode::Navigating;
                let mut out: Vec<Effect> = Vec::new();
                push_banner(&mut out, "Error! x_x", true);
                push_banner(&mut out, "Navigating", false);
                push_nav_bg(&mut out, &self.nav);
                proof {
                    assert(out.deep_view() =~= spec_step_error(old(self)@, ev).1);
                }
                out
            },
            _ => {
                let out: Vec<Effect> = Vec::new();
                proof {
                    assert(out.deep_view() =~= Seq::<EffectV>::empty());
                }
                out
            },
        }
    }

    fn on_unrecoverable(&mut self, ev: ButtonEvent) -> (r: Vec<Effect>)
        ensures
            final(self)@ == spec_step_unrecoverable(old(self)@, ev).0,
            r.deep_view() == spec_step_unrecoverable(old(self)@, ev).1,
    {
        match ev {
            ButtonEvent::Select => {
                let mut out: Vec<Effect> = Vec::new();
                push_effect(&mut out, Effect::Shutdown);
                proof {
                    assert(out.deep_view() =~= seq![EffectV::Shutdown]);
                }
                out
            },
            _ => {
                let out: Vec<Effect> = Vec::new();
                proof {
                    assert(out.deep_view() =~= Seq::<EffectV>::empty());
                }
                out
            },
        }
    }

    /// Handles one event from the bus: takes the dispatcher through the
    /// transition table and returns the effects to perform, exactly as
    /// [`spec_step`] describes.
    pub fn handle_event(&mut self, ev: ButtonEvent, env: &EnvSnapshot) -> (r: Vec<Effect>)
        requires
            disp_wf(old(self)@),
        ensures
            final(self)@ == spec_step(old(self)@, ev, env@).0,
            r.deep_view() == spec_step(old(self)@, ev, env@).1,
            disp_wf(final(self)@),
    {
        let r = match self.mode {
            Mode::Navigating => self.on_navigating(ev, env),
            Mode::ConfirmingMediaSelection => self.on_confirm_selection(ev),
            Mode::PlayingSomething => self.on_playing(ev, env),
            Mode::ConfirmingMediaExit => self.on_confirm_exit(ev),
            Mode::ErrorMessage => self.on_error(ev),
            Mode::UnrecoverableError => self.on_unrecoverable(ev),
        };
        proof {
            lemma_step_preserves_wf(old(self)@, ev, env@);
        }
        r
    }
}

/// Law: every dispatcher step preserves well-formedness; in particular the
/// navigation index stays inside the entry count and the volume stays a
/// multiple of five within 0..=100.
pub proof fn lemma_step_preserves_wf(d: DispatcherV, ev: ButtonEvent, env: EnvV)
    requires
        disp_wf(d),
    ensures
        disp_wf(spec_step(d, ev, env).0),
{
}

/// Decides whether the clock ticker should feed a time-changed event to
/// the dispatcher: only while navigating, and only once the clock reading
/// has moved since the last delivered tick.
pub fn should_emit_time_changed(mode: Mode, prev_millis: i64, now_millis: i64) -> (r: bool)
    ensures
        r == (mode == Mode::Navigating && now_millis != prev_millis),
{
    match mode {
        Mode::Navigating => now_millis != prev_millis,
        _ => false,
    }
}

/// The (state, event) cells outside the transition table's active cells:
/// pairs on which the dispatcher owes no reaction.
pub open spec fn inactive_cell(mode: Mode, ev: ButtonEvent) -> bool {
    match (mode, ev) {
        (Mode::Navigating, ButtonEvent::CurrentFrameChanged) => true,
        (Mode::ConfirmingMediaSelection, ButtonEvent::TimeChanged) => true,
        (Mode::ConfirmingMediaSelection, ButtonEvent::CurrentFrameChanged) => true,
        (Mode::PlayingSomething, ButtonEvent::Select) => true,
        (Mode::PlayingSomething, ButtonEvent::TimeChanged) => true,
        (Mode::ConfirmingMediaExit, ButtonEvent::TimeChanged) => true,
        (Mode::ConfirmingMediaExit, ButtonEvent::CurrentFrameChanged) => true,
        (Mode::ErrorMessage, ButtonEvent::Up) => true,
        (Mode::ErrorMessage, ButtonEvent::Down) => true,
        (Mode::ErrorMessage, ButtonEvent::TimeChanged) => true,
        (Mode::ErrorMessage, ButtonEvent::CurrentFrameChanged) => true,
        (Mode::UnrecoverableError, ButtonEvent::Escape) => true,
        (Mode::UnrecoverableError, ButtonEvent::Up) => true,
        (Mode::UnrecoverableError, ButtonEvent::Down) => true,
        (Mode::UnrecoverableError, ButtonEvent::TimeChanged) => true,
        (Mode::UnrecoverableError, ButtonEvent::CurrentFrameChanged) => true,
        _ => false,
    }
}

/// Law: on every cell outside the transition table's active cells the
/// dispatcher is an idempotent no-op: the state is unchanged and no effect
/// is emitted, whatever the environment snapshot holds.
pub proof fn lemma_inactive_cell_no_op(d: DispatcherV, ev: ButtonEvent, env: EnvV)
    requires
        inactive_cell(d.mode, ev),
    ensures
        spec_step(d, ev, env).0 == d,
        spec_step(d, ev, env).1 == Seq::<EffectV>::empty(),
{
}

/// The dispatcher state after a whole sequence of events, each with the
/// environment snapshot it was dispatched with.
pub open spec fn spec_run(d: DispatcherV, steps: Seq<(ButtonEvent, EnvV)>) -> DispatcherV
    decreases steps.len(),
{
    if steps.len() == 0 {
        d
    } else {
        spec_run(spec_step(d, steps[0].0, steps[0].1).0, steps.skip(1))
    }
}

/// Law: well-formedness holds after any sequence of events; in particular
/// the navigation index stays inside `[0, file_count)` whenever the count
/// is positive, however the state was reached.
pub proof fn lemma_run_preserves_wf(d: DispatcherV, steps: Seq<(ButtonEvent, EnvV)>)
    requires
        disp_wf(d),
    ensures
        disp_wf(spec_run(d, steps)),
    decreases steps.len(),
{
    if steps.len() > 0 {
        lemma_step_preserves_wf(d, steps[0].0, steps[0].1);
        lemma_run_preserves_wf(spec_step(d, steps[0].0, steps[0].1).0, steps.skip(1));
    }
}

/// Law: the volume never leaves 0..=100, however many consecutive events
/// of whatever kind are delivered: it is clamped, not wrapped.
pub proof fn lemma_volume_clamped(d: DispatcherV, steps: Seq<(ButtonEvent, EnvV)>)
    requires
        disp_wf(d),
    ensures
        spec_run(d, steps).playing.volume <= 100,
{
    lemma_run_preserves_wf(d, steps);
}

/// Law: scrolling up and then down returns the navigation model to the
/// very state it started from, whatever listings the two scrolls read.
pub proof fn lemma_scroll_up_down_restores_state(d: DispatcherV, env1: EnvV, env2: EnvV)
    requires
        disp_wf(d),
        d.mode == Mode::Navigating,
        d.nav.file_count > 1,
        d.nav.current_index != 0,
        env1.listing is Some,
        env2.listing is Some,
    ensures
        spec_step(spec_step(d, ButtonEvent::Up, env1).0, ButtonEvent::Down, env2).0 == d,
{
    let d1 = spec_step(d, ButtonEvent::Up, env1).0;
    let d2 = spec_step(d1, ButtonEvent::Down, env2).0;
    assert(d2.nav == d.nav);
    assert(d2 == d);
}

/// Law: entering a directory and immediately exiting it returns to the
/// original directory, and the index lands on the new listing's start:
/// zero. The original index is restored exactly when it was zero.
pub proof fn lemma_enter_exit_round_trip(d: DispatcherV, env1: EnvV, env2: EnvV)
    requires
        disp_wf(d),
        d.mode == Mode::Navigating,
        env1.listing matches Some(l) && d.nav.current_index < l.len() && l[
            d.nav.current_index as int
        ].kind == EntryKind::Directory,
        env1.target_listing is Some,
        env2.listing is Some,
        env2.target_listing is Some,
    ensures
        ({
            let d1 = spec_step(d, ButtonEvent::Select, env1).0;
            let d2 = spec_step(d1, ButtonEvent::Escape, env2).0;
            &&& d2.nav.dir == d.nav.dir
            &&& d2.nav.current_index == 0
            &&& (d2.nav.current_index == d.nav.current_index <==> d.nav.current_index == 0)
        }),
{
    let l = env1.listing->Some_0;
    let e = l[d.nav.current_index as int];
    let d1 = spec_step(d, ButtonEvent::Select, env1).0;
    assert(d1.nav.dir == d.nav.dir.push(e.name));
    let d2 = spec_step(d1, ButtonEvent::Escape, env2).0;
    assert(d2.nav.dir =~= d.nav.dir);
}

} // verus!
