use capswitch::{LayoutId, SwitchAction, SwitchMode, SwitchState};

#[test]
fn first_press_records_reference_and_cycles() {
    // mode=TrackPrevious, no reference, curr=A: cycle, reference becomes A
    let mut s = SwitchState::new(SwitchMode::TrackPrevious);
    let a = LayoutId(1);
    assert_eq!(s.decide_switch(a), SwitchAction::EmitCycle);
    assert_eq!(s.previous_layout, Some(a));
}

#[test]
fn press_at_reference_still_cycles() {
    // mode=TrackPrevious, reference=A, curr=A: cycle, never stuck
    let mut s = SwitchState::new(SwitchMode::TrackPrevious);
    let a = LayoutId(1);
    s.set_prev_layout(Some(a));
    assert_eq!(s.decide_switch(a), SwitchAction::EmitCycle);
    assert_eq!(s.decide_switch(a), SwitchAction::EmitCycle);
}

#[test]
fn press_away_from_reference_requests_it_and_rearms_on_accept() {
    // mode=TrackPrevious, reference=A, curr=B: direct switch to A;
    // once accepted, the layout just left becomes the new reference
    let mut s = SwitchState::new(SwitchMode::TrackPrevious);
    let a = LayoutId(1);
    let b = LayoutId(2);
    s.set_prev_layout(Some(a));
    assert_eq!(s.decide_switch(b), SwitchAction::RequestDirect(a));
    s.record_direct_switch_result(b, true);
    assert_eq!(s.previous_layout, Some(b));
}

#[test]
fn rejected_direct_switch_leaves_state_unchanged() {
    let mut s = SwitchState::new(SwitchMode::TrackPrevious);
    let a = LayoutId(1);
    let b = LayoutId(2);
    s.set_prev_layout(Some(a));
    assert_eq!(s.decide_switch(b), SwitchAction::RequestDirect(a));
    s.record_direct_switch_result(b, false);
    assert_eq!(s.previous_layout, Some(a));
}

#[test]
fn circular_press_cycles_and_keeps_reference() {
    // mode=Circular, any curr, reference=X: cycle; reference stays X
    let mut s = SwitchState::new(SwitchMode::Circular);
    let x = LayoutId(9);
    s.set_prev_layout(Some(x));
    assert_eq!(s.decide_switch(LayoutId(4)), SwitchAction::EmitCycle);
    assert_eq!(s.previous_layout, Some(x));
    assert_eq!(s.decide_switch(LayoutId(5)), SwitchAction::EmitCycle);
    assert_eq!(s.previous_layout, Some(x));
}

#[test]
fn circular_sequence_never_mutates_previous_layout() {
    let mut s = SwitchState::new(SwitchMode::Circular);
    let x = LayoutId(11);
    s.set_prev_layout(Some(x));
    for raw in [1usize, 2, 1, 2, 3, 1] {
        assert_eq!(s.decide_switch(LayoutId(raw)), SwitchAction::EmitCycle);
        assert_eq!(s.previous_layout, Some(x));
        assert_eq!(s.paused, false);
        assert_eq!(s.mode, SwitchMode::Circular);
    }
}

#[test]
fn alternating_layouts_never_request_the_current_one() {
    // foreground layouts A, B, A, B, ... reported by successive queries:
    // no press may request a switch to the layout that is already current
    let a = LayoutId(1);
    let b = LayoutId(2);
    let mut s = SwitchState::new(SwitchMode::TrackPrevious);
    let mut curr = a;
    for step in 0..8 {
        let action = s.decide_switch(curr);
        match action {
            SwitchAction::EmitCycle => {
                // the OS advances to the other layout of the pair
                curr = if curr == a { b } else { a };
            }
            SwitchAction::RequestDirect(target) => {
                assert_ne!(target, curr, "step {step} requested the current layout");
                s.record_direct_switch_result(curr, true);
                curr = target;
            }
        }
    }
}

#[test]
fn repeated_presses_keep_advancing() {
    // with layouts A and B alternating, every press either cycles (the OS
    // advances) or requests a layout other than the current one, so the
    // visible layout changes on every press
    let a = LayoutId(1);
    let b = LayoutId(2);
    let mut s = SwitchState::new(SwitchMode::TrackPrevious);
    let mut curr = a;
    for _ in 0..6 {
        let before = curr;
        match s.decide_switch(curr) {
            SwitchAction::EmitCycle => {
                curr = if curr == a { b } else { a };
            }
            SwitchAction::RequestDirect(target) => {
                s.record_direct_switch_result(curr, true);
                curr = target;
            }
        }
        assert_ne!(curr, before);
    }
}
