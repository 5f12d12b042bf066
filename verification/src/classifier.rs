use vstd::prelude::*;

verus! {

/// Virtual-key code of the Caps Lock key.
pub const VK_CAPS_LOCK: u32 = 0x14;

/// Message identifier of an ordinary key-down transition.
pub const WM_KEY_DOWN: u32 = 0x100;

/// One raw key transition as the low-level hook reports it: the virtual-key
/// code, the transition message, and a snapshot of whether Shift is held.
#[derive(Clone, Copy, PartialEq, Eq, Structural, Debug)]
pub struct KeyEvent {
    /// The virtual-key code of the key that changed.
    pub vk_code: u32,
    /// The transition message, [`WM_KEY_DOWN`] for an ordinary key press.
    pub message: u32,
    /// Whether a Shift key was held when the transition happened.
    pub shift_held: bool,
}

/// What the classifier decides for one raw key transition.
#[derive(Clone, Copy, PartialEq, Eq, Structural, Debug)]
pub enum Classification {
    /// Not this system's business: let the OS handle the event natively.
    PassThrough,
    /// Caps Lock with Shift: suppress the native effect and synthesize the
    /// original Caps Lock toggle.
    NativeToggle,
    /// Caps Lock alone: suppress the native effect, query the current
    /// layout fresh, and hand it to the switch engine.
    LayoutSwitch,
}

impl Classification {
    /// Whether the event must be reported as consumed to the OS, so that the
    /// native handling of the key does not also fire.
    pub fn consumed(&self) -> (r: bool)
        ensures
            r == (*self != Classification::PassThrough),
    {
        match self {
            Classification::PassThrough => false,
            Classification::NativeToggle => true,
            Classification::LayoutSwitch => true,
        }
    }
}

/// The decision for one raw key transition: everything passes through while
/// paused; otherwise only a Caps Lock key-down is taken, as the native
/// toggle when Shift is held and as a layout switch when not.
pub open spec fn spec_classify(paused: bool, ev: KeyEvent) -> Classification {
    if paused {
        Classification::PassThrough
    } else if ev.message != WM_KEY_DOWN || ev.vk_code != VK_CAPS_LOCK {
        Classification::PassThrough
    } else if ev.shift_held {
        Classification::NativeToggle
    } else {
        Classification::LayoutSwitch
    }
}

/// Classifies one raw key transition.
///
/// Every event other than a Caps Lock key-down is ignored, and any event of
/// unexpected shape therefore falls through unharmed. While paused, even
/// Caps Lock passes through, so the OS handles the key natively.
pub fn classify_event(paused: bool, ev: KeyEvent) -> (r: Classification)
    ensures
        r == spec_classify(paused, ev),
        // while paused nothing is intercepted and the engine is never reached
        paused ==> r is PassThrough,
        // Shift together with Caps Lock never becomes a layout switch
        ev.shift_held ==> r != Classification::LayoutSwitch,
        // an unpaused Caps Lock key-down is always consumed
        !paused && ev.message == WM_KEY_DOWN && ev.vk_code == VK_CAPS_LOCK ==> r
            != Classification::PassThrough,
        // everything else propagates to the OS untouched
        ev.message != WM_KEY_DOWN || ev.vk_code != VK_CAPS_LOCK ==> r
            == Classification::PassThrough,
{
    if paused {
        Classification::PassThrough
    } else if ev.message != WM_KEY_DOWN || ev.vk_code != VK_CAPS_LOCK {
        Classification::PassThrough
    } else if ev.shift_held {
        Classification::NativeToggle
    } else {
        Classification::LayoutSwitch
    }
}

/// Shift with Caps Lock key-down always classifies as the native toggle
/// when not paused, and never as a layout switch in any state.
pub proof fn lemma_shift_caps_is_native_toggle(paused: bool, ev: KeyEvent)
    requires
        ev.vk_code == VK_CAPS_LOCK,
        ev.message == WM_KEY_DOWN,
        ev.shift_held,
    ensures
        spec_classify(paused, ev) != Classification::LayoutSwitch,
        !paused ==> spec_classify(paused, ev) == Classification::NativeToggle,
{
}

} // verus!
