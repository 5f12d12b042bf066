use vstd::prelude::*;

use crate::layout::LayoutId;

verus! {

/// Which algorithm decides the effect of a Caps-Lock-alone press.
#[derive(Clone, Copy, PartialEq, Eq, Structural, Debug)]
pub enum SwitchMode {
    /// Always advance through the OS's own layout rotation.
    Circular,
    /// Bounce back to the layout most recently moved away from.
    TrackPrevious,
}

/// The state shared between the event-processing path and the control
/// surface: the pause flag, the switch mode, and the layout the engine most
/// recently moved away from.
///
/// `previous_layout` is consulted only in [`SwitchMode::TrackPrevious`];
/// switching to [`SwitchMode::Circular`] does not clear it, and the engine
/// never reads it while circular.
#[derive(Clone, Copy, Debug)]
pub struct SwitchState {
    /// When set, the event classifier forwards all events unmodified.
    pub paused: bool,
    /// Selects the layout-switch algorithm.
    pub mode: SwitchMode,
    /// The layout a direct switch would return to, once one has been seen.
    pub previous_layout: Option<LayoutId>,
}

/// The state with its pause flag flipped and everything else unchanged.
pub open spec fn pause_toggled(s: SwitchState) -> SwitchState {
    SwitchState { paused: !s.paused, ..s }
}

/// The other of the two switch modes.
pub open spec fn flipped_mode(m: SwitchMode) -> SwitchMode {
    match m {
        SwitchMode::Circular => SwitchMode::TrackPrevious,
        SwitchMode::TrackPrevious => SwitchMode::Circular,
    }
}

/// The state with its mode flipped and everything else unchanged.
pub open spec fn mode_toggled(s: SwitchState) -> SwitchState {
    SwitchState { mode: flipped_mode(s.mode), ..s }
}

impl SwitchState {
    /// A fresh state: not paused, no previous layout recorded yet, in the
    /// mode selected at startup.
    pub fn new(initial_mode: SwitchMode) -> (s: Self)
        ensures
            s.paused == false,
            s.mode == initial_mode,
            s.previous_layout is None,
    {
        SwitchState { paused: false, mode: initial_mode, previous_layout: None }
    }

    /// Flips the pause flag and returns its new value.
    pub fn toggle_pause(&mut self) -> (r: bool)
        ensures
            *final(self) == pause_toggled(*old(self)),
            r == final(self).paused,
    {
        self.paused = !self.paused;
        self.paused
    }

    /// Flips the switch mode and returns whether the new mode is
    /// [`SwitchMode::TrackPrevious`].
    pub fn toggle_previous_mode(&mut self) -> (r: bool)
        ensures
            *final(self) == mode_toggled(*old(self)),
            r == (final(self).mode == SwitchMode::TrackPrevious),
    {
        self.mode = match self.mode {
            SwitchMode::Circular => SwitchMode::TrackPrevious,
            SwitchMode::TrackPrevious => SwitchMode::Circular,
        };
        self.mode == SwitchMode::TrackPrevious
    }

    /// Overwrites the recorded previous layout.
    pub fn set_prev_layout(&mut self, layout: Option<LayoutId>)
        ensures
            *final(self) == (SwitchState { previous_layout: layout, ..*old(self) }),
    {
        self.previous_layout = layout;
    }
}

/// Pausing twice returns to the original state.
pub proof fn lemma_toggle_pause_twice(s: SwitchState)
    ensures
        pause_toggled(pause_toggled(s)) == s,
{
}

/// Toggling the mode twice returns to the original state.
pub proof fn lemma_toggle_mode_twice(s: SwitchState)
    ensures
        mode_toggled(mode_toggled(s)) == s,
{
}

/// The startup mode selected by a command line: `TrackPrevious` exactly when
/// the first argument after the program name is `--previous`.
pub open spec fn spec_mode_from_args(args: Seq<String>) -> SwitchMode {
    if args.len() >= 2 && args[1]@ == "--previous"@ {
        SwitchMode::TrackPrevious
    } else {
        SwitchMode::Circular
    }
}

/// Interprets the process's optional startup flag, read once before the
/// event loop starts. The first real argument `--previous` pre-selects
/// [`SwitchMode::TrackPrevious`]; anything else leaves the default
/// [`SwitchMode::Circular`].
pub fn mode_from_args(args: &Vec<String>) -> (r: SwitchMode)
    ensures
        r == spec_mode_from_args(args@),
{
    if args.len() >= 2 {
        let previous_flag: String = String::from_str("--previous");
        if args[1] == previous_flag {
            return SwitchMode::TrackPrevious;
        }
    }
    SwitchMode::Circular
}

} // verus!
