use capswitch::classifier::{classify_event, VK_CAPS_LOCK, WM_KEY_DOWN};
use capswitch::{Classification, KeyEvent};

const WM_KEY_UP: u32 = 0x101;
const VK_A: u32 = 0x41;

fn caps_down(shift_held: bool) -> KeyEvent {
    KeyEvent { vk_code: VK_CAPS_LOCK, message: WM_KEY_DOWN, shift_held }
}

#[test]
fn caps_alone_is_a_layout_switch() {
    let r = classify_event(false, caps_down(false));
    assert_eq!(r, Classification::LayoutSwitch);
    assert!(r.consumed());
}

#[test]
fn shift_caps_is_always_the_native_toggle() {
    // never a layout switch, whatever the engine state
    let r = classify_event(false, caps_down(true));
    assert_eq!(r, Classification::NativeToggle);
    assert!(r.consumed());

    // paused it passes through, but still never becomes a layout switch
    let paused = classify_event(true, caps_down(true));
    assert_ne!(paused, Classification::LayoutSwitch);
}

#[test]
fn paused_caps_alone_passes_through() {
    // paused: the classifier reports pass-through and the engine is not reached
    let r = classify_event(true, caps_down(false));
    assert_eq!(r, Classification::PassThrough);
    assert!(!r.consumed());
}

#[test]
fn other_keys_pass_through() {
    let ev = KeyEvent { vk_code: VK_A, message: WM_KEY_DOWN, shift_held: false };
    assert_eq!(classify_event(false, ev), Classification::PassThrough);

    let shifted = KeyEvent { vk_code: VK_A, message: WM_KEY_DOWN, shift_held: true };
    assert_eq!(classify_event(false, shifted), Classification::PassThrough);
}

#[test]
fn caps_key_up_passes_through() {
    let ev = KeyEvent { vk_code: VK_CAPS_LOCK, message: WM_KEY_UP, shift_held: false };
    assert_eq!(classify_event(false, ev), Classification::PassThrough);
}

#[test]
fn unknown_message_passes_through() {
    let ev = KeyEvent { vk_code: VK_CAPS_LOCK, message: 0xFFFF, shift_held: false };
    assert_eq!(classify_event(false, ev), Classification::PassThrough);
}

#[test]
fn only_pass_through_is_not_consumed() {
    assert!(!Classification::PassThrough.consumed());
    assert!(Classification::NativeToggle.consumed());
    assert!(Classification::LayoutSwitch.consumed());
}
