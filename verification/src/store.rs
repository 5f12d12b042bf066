use vstd::prelude::*;
use vstd::rwlock::{RwLock, RwLockPredicate};

use crate::classifier::{spec_classify, classify_event, Classification, KeyEvent};
use crate::engine::SwitchAction;
use crate::layout::LayoutId;
use crate::state::{SwitchMode, SwitchState};

verus! {

/// The lock invariant of the shared store: every [`SwitchState`] value is a
/// meaningful one, so the lock admits them all.
pub struct StorePred;

impl RwLockPredicate<SwitchState> for StorePred {
    open spec fn inv(self, v: SwitchState) -> bool {
        true
    }
}

/// The process-wide store of the switch state, shared between the
/// event-processing path and the tray-menu path.
///
/// A reader-writer lock keeps every toggle an indivisible read-modify-write
/// and lets the hot input path read without excluding other readers. Each
/// operation holds the lock only around its own access, never across an OS
/// call, so the event path cannot stall behind a slow menu operation. What
/// each operation does to the state is stated on the [`SwitchState`]
/// methods it applies while holding the lock; a method here can relate only
/// the values it observed during its own critical section, since other
/// callers may intervene between two calls.
pub struct AppState {
    state: RwLock<SwitchState, StorePred>,
}

impl AppState {
    /// A fresh store: not paused, no previous layout, in the mode selected
    /// at startup.
    pub fn new(initial_mode: SwitchMode) -> Self {
        AppState { state: RwLock::new(SwitchState::new(initial_mode), Ghost(StorePred)) }
    }

    /// Whether remapping is currently paused.
    pub fn is_paused(&self) -> bool {
        let handle = self.state.acquire_read();
        let paused = handle.borrow().paused;
        handle.release_read();
        paused
    }

    /// Whether the store is currently in [`SwitchMode::TrackPrevious`].
    pub fn is_previous_mode(&self) -> bool {
        let handle = self.state.acquire_read();
        let previous = handle.borrow().mode == SwitchMode::TrackPrevious;
        handle.release_read();
        previous
    }

    /// The recorded previous layout, exposed read-only for diagnostics.
    pub fn prev_layout(&self) -> Option<LayoutId> {
        let handle = self.state.acquire_read();
        let layout = handle.borrow().previous_layout;
        handle.release_read();
        layout
    }

    /// Overwrites the recorded previous layout.
    pub fn set_prev_layout(&self, layout: Option<LayoutId>) {
        let (mut value, handle) = self.state.acquire_write();
        value.set_prev_layout(layout);
        handle.release_write(value);
    }

    /// Flips the pause flag indivisibly and returns the pair of values it
    /// observed: the flag as it was, and the flag as this toggle left it -
    /// always the negation of the first.
    pub fn toggle_pause(&self) -> (r: (bool, bool))
        ensures
            r.1 == !r.0,
    {
        let (mut value, handle) = self.state.acquire_write();
        let was_paused = value.paused;
        let now_paused = value.toggle_pause();
        handle.release_write(value);
        (was_paused, now_paused)
    }

    /// Flips the switch mode indivisibly and returns the pair of values it
    /// observed: whether the store was in `TrackPrevious` before, and
    /// whether it is after - always the negation of the first.
    pub fn toggle_previous_mode(&self) -> (r: (bool, bool))
        ensures
            r.1 == !r.0,
    {
        let (mut value, handle) = self.state.acquire_write();
        let was_previous = value.mode == SwitchMode::TrackPrevious;
        let now_previous = value.toggle_previous_mode();
        handle.release_write(value);
        (was_previous, now_previous)
    }

    /// Classifies one raw key transition against the pause flag as it stands
    /// now. The result is the classification for one of the two possible
    /// flag values; which one was read cannot be promised to a caller, but
    /// every clause that holds of both does hold.
    pub fn handle_key_event(&self, ev: KeyEvent) -> (r: Classification)
        ensures
            exists|paused: bool| r == spec_classify(paused, ev),
            ev.shift_held ==> r != Classification::LayoutSwitch,
            ev.message != crate::classifier::WM_KEY_DOWN || ev.vk_code
                != crate::classifier::VK_CAPS_LOCK ==> r == Classification::PassThrough,
    {
        let paused = self.is_paused();
        classify_event(paused, ev)
    }

    /// Decides the effect of one Caps-Lock-alone press against the state as
    /// it stands now, holding the write lock for the decision only: the
    /// surrounding process queries the current layout fresh before the call
    /// and carries the action out after the lock is released. Whatever is
    /// recorded, a direct switch never targets the layout that is already
    /// current.
    pub fn press_caps_alone(&self, curr: LayoutId) -> (r: SwitchAction)
        ensures
            r matches SwitchAction::RequestDirect(t) ==> t != curr,
    {
        let (mut value, handle) = self.state.acquire_write();
        let action = value.decide_switch(curr);
        handle.release_write(value);
        action
    }

    /// Records the outcome the OS reported for a direct-switch request made
    /// for a press whose current layout was `curr`: on acceptance the layout
    /// just left becomes the new reference, on rejection nothing changes.
    pub fn record_direct_switch_result(&self, curr: LayoutId, accepted: bool) {
        let (mut value, handle) = self.state.acquire_write();
        value.record_direct_switch_result(curr, accepted);
        handle.release_write(value);
    }
}

} // verus!
