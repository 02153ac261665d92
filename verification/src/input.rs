//! Button input: the debounced press detector and the events it feeds the
//! dispatcher.
//!
//! Each physical line is sampled periodically; the `debouncr` crate filters
//! the samples through a four-wide window and this module turns its rising
//! edges into discrete button events.

use vstd::prelude::*;

verus! {

/// A discrete event on the dispatcher's bus: the four buttons plus the two
/// synthetic ticker events.
#[derive(Clone, Copy, Debug, PartialEq, Eq, Structural)]
pub enum ButtonEvent {
    Up,
    Down,
    Select,
    Escape,
    TimeChanged,
    CurrentFrameChanged,
}

/// A debounced edge: the sample window just became uniformly pressed or
/// uniformly released.
#[derive(Clone, Copy, Debug, PartialEq, Eq, Structural)]
pub enum PressEdge {
    Rising,
    Falling,
}

#[verifier::external_type_specification]
#[verifier::external_body]
#[verifier::reject_recursive_types(S)]
#[verifier::reject_recursive_types(M)]
pub struct ExDebouncer<S, M>(debouncr::Debouncer<S, M>);

#[verifier::external_type_specification]
#[verifier::external_body]
pub struct ExRepeat4(debouncr::Repeat4);

/// The four most recent samples a debouncer holds, oldest first.
pub uninterp spec fn detector_history(d: debouncr::Debouncer<u8, debouncr::Repeat4>) -> Seq<bool>;

/// Every sample in the window reads pressed.
pub open spec fn all_pressed(h: Seq<bool>) -> bool {
    forall|i: int| 0 <= i < h.len() ==> h[i]
}

/// Every sample in the window reads released.
pub open spec fn none_pressed(h: Seq<bool>) -> bool {
    forall|i: int| 0 <= i < h.len() ==> !h[i]
}

/// Relies on `debouncr::debounce_4`: a fresh debouncer whose four-sample
/// window is uniformly released.
#[verifier::external_body]
fn debouncer_new() -> (d: debouncr::Debouncer<u8, debouncr::Repeat4>)
    ensures
        detector_history(d) == seq![false, false, false, false],
{
    debouncr::debounce_4(false)
}

/// Relies on `debouncr`'s `Debouncer::update`: the sample window shifts one
/// step, and an edge is reported exactly when the window becomes uniform
/// without having been so before the update.
#[verifier::external_body]
fn debouncer_update(d: &mut debouncr::Debouncer<u8, debouncr::Repeat4>, pressed: bool) -> (e: Option<
    PressEdge,
>)
    ensures
        detector_history(*final(d)) == detector_history(*old(d)).skip(1).push(pressed),
        e == (if all_pressed(detector_history(*final(d))) && !all_pressed(
            detector_history(*old(d)),
        ) {
            Some(PressEdge::Rising)
        } else if none_pressed(detector_history(*final(d))) && !none_pressed(
            detector_history(*old(d)),
        ) {
            Some(PressEdge::Falling)
        } else {
            None::<PressEdge>
        }),
{
    match d.update(pressed) {
        Some(debouncr::Edge::Rising) => Some(PressEdge::Rising),
        Some(debouncr::Edge::Falling) => Some(PressEdge::Falling),
        None => None,
    }
}

/// The debounced press detector of one physical button. Its mathematical
/// value is the window of the four most recent samples, oldest first.
pub struct PressDetector {
    inner: debouncr::Debouncer<u8, debouncr::Repeat4>,
}

impl View for PressDetector {
    type V = Seq<bool>;

    closed spec fn view(&self) -> Seq<bool> {
        detector_history(self.inner)
    }
}

impl PressDetector {
    /// A fresh detector: all four window samples released.
    pub fn new() -> (d: PressDetector)
        ensures
            d@ == seq![false, false, false, false],
    {
        PressDetector { inner: debouncer_new() }
    }

    /// Feeds one raw sample. Returns `Some(event)` exactly when the window
    /// just became uniformly pressed: one event per debounced press, none
    /// while the line bounces, none on release.
    pub fn sample(&mut self, pressed: bool, event: ButtonEvent) -> (r: Option<ButtonEvent>)
        ensures
            final(self)@ == old(self)@.skip(1).push(pressed),
            r == (if all_pressed(final(self)@) && !all_pressed(old(self)@) {
                Some(event)
            } else {
                None::<ButtonEvent>
            }),
    {
        match debouncer_update(&mut self.inner, pressed) {
            Some(PressEdge::Rising) => Some(event),
            _ => None,
        }
    }
}

} // verus!
