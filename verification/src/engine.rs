use vstd::prelude::*;

use crate::layout::LayoutId;
use crate::state::{SwitchMode, SwitchState};

verus! {

/// What the engine asks the surrounding process to do for one
/// Caps-Lock-alone press.
#[derive(Clone, Copy, PartialEq, Eq, Structural, Debug)]
pub enum SwitchAction {
    /// Synthesize the gesture that advances the OS to the next layout in its
    /// own rotation.
    EmitCycle,
    /// Ask the OS to activate this specific layout.
    RequestDirect(LayoutId),
}

/// The action the engine picks for a press, given the mode, the recorded
/// previous layout, and the freshly queried current layout.
pub open spec fn spec_switch_action(
    mode: SwitchMode,
    prev: Option<LayoutId>,
    curr: LayoutId,
) -> SwitchAction {
    match mode {
        SwitchMode::Circular => SwitchAction::EmitCycle,
        SwitchMode::TrackPrevious => match prev {
            None => SwitchAction::EmitCycle,
            Some(p) => if p == curr {
                SwitchAction::EmitCycle
            } else {
                SwitchAction::RequestDirect(p)
            },
        },
    }
}

/// The previous layout recorded at decision time: a first press in
/// `TrackPrevious` mode takes the current layout as the reference; every
/// other case leaves the field alone until a direct switch is accepted.
pub open spec fn spec_prev_after_decide(
    mode: SwitchMode,
    prev: Option<LayoutId>,
    curr: LayoutId,
) -> Option<LayoutId> {
    if mode == SwitchMode::TrackPrevious && prev is None {
        Some(curr)
    } else {
        prev
    }
}

impl SwitchState {
    /// Decides the effect of a Caps-Lock-alone press.
    ///
    /// In `Circular` mode the cycle gesture is emitted unconditionally and
    /// the recorded previous layout is not touched. In `TrackPrevious` mode:
    /// with no reference recorded yet, the current layout becomes the
    /// reference and the press cycles; at the reference, the press cycles and
    /// the existing reference is kept (of the two workable variants - clear
    /// on match, or keep the reference - this engine keeps it); away from the
    /// reference, a direct switch to the reference is requested, and the
    /// reference is updated only once that request is reported accepted, via
    /// [`SwitchState::record_direct_switch_result`].
    pub fn decide_switch(&mut self, curr: LayoutId) -> (r: SwitchAction)
        ensures
            r == spec_switch_action(old(self).mode, old(self).previous_layout, curr),
            final(self).previous_layout == spec_prev_after_decide(
                old(self).mode,
                old(self).previous_layout,
                curr,
            ),
            final(self).paused == old(self).paused,
            final(self).mode == old(self).mode,
            // a direct switch always targets a layout other than the current one
            r matches SwitchAction::RequestDirect(t) ==> t != curr,
            // circular mode is stateless: the whole state is left unchanged
            old(self).mode is Circular ==> *final(self) == *old(self),
    {
        match self.mode {
            SwitchMode::Circular => SwitchAction::EmitCycle,
            SwitchMode::TrackPrevious => match self.previous_layout {
                None => {
                    self.previous_layout = Some(curr);
                    SwitchAction::EmitCycle
                },
                Some(p) => if p == curr {
                    SwitchAction::EmitCycle
                } else {
                    SwitchAction::RequestDirect(p)
                },
            },
        }
    }

    /// Records the outcome of a direct-switch request for the press whose
    /// current layout was `curr`: on acceptance the layout now being left
    /// becomes the new reference; on rejection the state is left unchanged,
    /// so the next press retries from the same reference.
    pub fn record_direct_switch_result(&mut self, curr: LayoutId, accepted: bool)
        ensures
            accepted ==> *final(self) == (SwitchState {
                previous_layout: Some(curr),
                ..*old(self)
            }),
            !accepted ==> *final(self) == *old(self),
    {
        if accepted {
            self.previous_layout = Some(curr);
        }
    }
}

/// A press while already at the recorded reference still advances: the
/// engine emits the cycle gesture rather than requesting the layout that is
/// already current.
pub proof fn lemma_at_reference_still_advances(s: SwitchState, curr: LayoutId)
    requires
        s.mode is TrackPrevious,
        s.previous_layout == Some(curr),
    ensures
        spec_switch_action(s.mode, s.previous_layout, curr) == SwitchAction::EmitCycle,
{
}

/// No press ever requests a direct switch to the layout that is already
/// current, whatever the mode and whatever is recorded.
pub proof fn lemma_never_requests_current(
    mode: SwitchMode,
    prev: Option<LayoutId>,
    curr: LayoutId,
)
    ensures
        spec_switch_action(mode, prev, curr) != SwitchAction::RequestDirect(curr),
{
}

/// One full press against an environment that answers a direct-switch
/// request with `accepted`: the decision, followed by the recording of the
/// outcome where a direct switch was requested.
pub open spec fn spec_press(s: SwitchState, curr: LayoutId, accepted: bool) -> (SwitchState,
    SwitchAction) {
    let action = spec_switch_action(s.mode, s.previous_layout, curr);
    let decided = SwitchState {
        previous_layout: spec_prev_after_decide(s.mode, s.previous_layout, curr),
        ..s
    };
    match action {
        SwitchAction::EmitCycle => (decided, action),
        SwitchAction::RequestDirect(_) => if accepted {
            (SwitchState { previous_layout: Some(curr), ..decided }, action)
        } else {
            (decided, action)
        },
    }
}

/// The state after a whole sequence of presses; each event pairs the layout
/// current at that press with the OS's answer to a direct-switch request.
pub open spec fn run_states(s: SwitchState, events: Seq<(LayoutId, bool)>) -> SwitchState
    decreases events.len(),
{
    if events.len() == 0 {
        s
    } else {
        run_states(spec_press(s, events[0].0, events[0].1).0, events.skip(1))
    }
}

/// The actions a whole sequence of presses emits, one per event.
pub open spec fn run_actions(s: SwitchState, events: Seq<(LayoutId, bool)>) -> Seq<SwitchAction>
    decreases events.len(),
{
    if events.len() == 0 {
        Seq::empty()
    } else {
        seq![spec_press(s, events[0].0, events[0].1).1] + run_actions(
            spec_press(s, events[0].0, events[0].1).0,
            events.skip(1),
        )
    }
}

/// Circular mode is stateless: a sequence of presses, whatever layouts the
/// OS reports and whatever it answers, leaves the state - in particular the
/// recorded previous layout - exactly as it was.
pub proof fn lemma_circular_stateless(s: SwitchState, events: Seq<(LayoutId, bool)>)
    requires
        s.mode is Circular,
    ensures
        run_states(s, events) == s,
    decreases events.len(),
{
    if events.len() > 0 {
        assert(spec_press(s, events[0].0, events[0].1).0 == s);
        lemma_circular_stateless(s, events.skip(1));
    }
}

/// Over any sequence of presses, from any starting state, no emitted action
/// requests a switch to the layout that was current at that press.
pub proof fn lemma_run_never_requests_current(s: SwitchState, events: Seq<(LayoutId, bool)>)
    ensures
        run_actions(s, events).len() == events.len(),
        forall|i: int|
            0 <= i < events.len() ==> run_actions(s, events)[i] != SwitchAction::RequestDirect(
                events[i].0,
            ),
    decreases events.len(),
{
    if events.len() > 0 {
        let next = spec_press(s, events[0].0, events[0].1).0;
        lemma_run_never_requests_current(next, events.skip(1));
        assert forall|i: int| 0 <= i < events.len() implies run_actions(s, events)[i]
            != SwitchAction::RequestDirect(events[i].0) by {
            if i == 0 {
                lemma_never_requests_current(s.mode, s.previous_layout, events[0].0);
            } else {
                assert(run_actions(s, events)[i] == run_actions(next, events.skip(1))[i - 1]);
                assert(events.skip(1)[i - 1] == events[i]);
            }
        }
    }
}

} // verus!
