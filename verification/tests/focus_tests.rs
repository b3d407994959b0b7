use canvaswm::focus::{fullscreen_step, FullscreenStep};
use canvaswm::focus::FocusState;
use canvaswm::focus::{ButtonEffect, KeyboardFocus};
use canvaswm::input::ButtonPlan;

fn history(s: &FocusState) -> Vec<u64> {
    s.history().clone()
}

#[test]
fn new_state_is_empty() {
    let s = FocusState::new();
    assert!(history(&s).is_empty());
    assert_eq!(s.cycle_state(), None);
    assert!(!s.active_focus());
    assert_eq!(s.focused(), None);
}

#[test]
fn focusing_moves_window_to_front() {
    let mut s = FocusState::new();
    s.update_focus_history(1);
    s.update_focus_history(2);
    s.update_focus_history(3);
    assert_eq!(history(&s), vec![3, 2, 1]);
    s.update_focus_history(1);
    assert_eq!(history(&s), vec![1, 3, 2]);
    assert!(s.active_focus());
    assert_eq!(s.focused(), Some(1));
}

#[test]
fn focusing_twice_is_focusing_once() {
    let mut s = FocusState::new();
    for w in [5, 6, 7] {
        s.update_focus_history(w);
    }
    s.update_focus_history(6);
    let once = history(&s);
    s.update_focus_history(6);
    assert_eq!(history(&s), once);
}

#[test]
fn cycle_on_empty_history_does_nothing() {
    let mut s = FocusState::new();
    assert_eq!(s.cycle_forward(), None);
    assert_eq!(s.cycle_backward(), None);
    assert_eq!(s.cycle_state(), None);
}

#[test]
fn first_forward_step_selects_previous_window() {
    let mut s = FocusState::new();
    for w in [1, 2, 3] {
        s.update_focus_history(w);
    }
    // history: 3, 2, 1
    assert_eq!(s.cycle_forward(), Some(2));
    assert_eq!(s.cycle_state(), Some(1));
    assert_eq!(s.cycle_forward(), Some(1));
    assert_eq!(s.cycle_forward(), Some(3));
    assert_eq!(s.cycle_state(), Some(0));
}

#[test]
fn forward_with_single_window_stays_on_it() {
    let mut s = FocusState::new();
    s.update_focus_history(9);
    assert_eq!(s.cycle_forward(), Some(9));
    assert_eq!(s.cycle_state(), Some(0));
}

#[test]
fn backward_from_fresh_selects_oldest() {
    let mut s = FocusState::new();
    for w in [1, 2, 3] {
        s.update_focus_history(w);
    }
    assert_eq!(s.cycle_backward(), Some(1));
    assert_eq!(s.cycle_state(), Some(2));
    assert_eq!(s.cycle_backward(), Some(2));
    assert_eq!(s.cycle_backward(), Some(3));
    assert_eq!(s.cycle_backward(), Some(1));
}

#[test]
fn forward_then_backward_returns() {
    let mut s = FocusState::new();
    for w in [1, 2, 3, 4] {
        s.update_focus_history(w);
    }
    s.cycle_forward();
    s.cycle_forward();
    let here = s.cycle_state();
    s.cycle_forward();
    s.cycle_backward();
    assert_eq!(s.cycle_state(), here);
}

#[test]
fn quick_alt_tab_swaps_two_most_recent() {
    let mut s = FocusState::new();
    for w in [1, 2, 3, 4] {
        s.update_focus_history(w);
    }
    s.cycle_forward();
    s.end_cycle();
    assert_eq!(history(&s), vec![3, 4, 2, 1]);
    assert_eq!(s.cycle_state(), None);
}

#[test]
fn end_cycle_without_cycling_keeps_history() {
    let mut s = FocusState::new();
    s.update_focus_history(1);
    s.update_focus_history(2);
    s.end_cycle();
    assert_eq!(history(&s), vec![2, 1]);
}

#[test]
fn removing_window_forgets_it() {
    let mut s = FocusState::new();
    for w in [1, 2, 3] {
        s.update_focus_history(w);
    }
    s.remove_window(2);
    assert_eq!(history(&s), vec![3, 1]);
    s.remove_window(42);
    assert_eq!(history(&s), vec![3, 1]);
}

#[test]
fn stale_cycle_index_after_removal() {
    let mut s = FocusState::new();
    for w in [1, 2, 3] {
        s.update_focus_history(w);
    }
    s.cycle_backward(); // index 2
    s.remove_window(3);
    s.remove_window(2);
    // index 2 is past the end now; the backward step lands on 1, past the end too
    assert_eq!(s.cycle_backward(), None);
    assert_eq!(s.cycle_state(), Some(1));
    s.end_cycle();
    assert_eq!(history(&s), vec![1]);
}

#[test]
fn focused_needs_active_flag() {
    let mut s = FocusState::new();
    s.update_focus_history(4);
    s.set_active_focus(false);
    assert_eq!(s.focused(), None);
    s.set_active_focus(true);
    assert_eq!(s.focused(), Some(4));
}

#[test]
fn close_target_prefers_history() {
    let mut s = FocusState::new();
    assert_eq!(s.close_target(&vec![7, 8]), Some(8));
    assert_eq!(s.close_target(&vec![]), None);
    s.update_focus_history(7);
    assert_eq!(s.close_target(&vec![7, 8]), Some(7));
}

#[test]
fn most_recent_ignores_active_flag() {
    let mut s = FocusState::new();
    assert_eq!(s.most_recent(), None);
    s.update_focus_history(3);
    s.set_active_focus(false);
    assert_eq!(s.most_recent(), Some(3));
}

#[test]
fn fullscreen_toggle_steps() {
    assert_eq!(fullscreen_step(Some(2), Some(5)), FullscreenStep::Restore(2));
    assert_eq!(fullscreen_step(None, Some(5)), FullscreenStep::Enter(5));
    assert_eq!(fullscreen_step(None, None), FullscreenStep::Nothing);
}

#[test]
fn click_on_window_focuses_and_raises_it() {
    let mut f = FocusState::new();
    f.update_focus_history(1);
    f.update_focus_history(2);
    let e = f.apply_button_plan(ButtonPlan::FocusAndForward(1));
    assert_eq!(e, ButtonEffect { raise: Some(1), keyboard: KeyboardFocus::Window(1), deactivate_all: false });
    assert_eq!(f.history(), &vec![1, 2]);
    assert!(f.active_focus());
}

#[test]
fn click_on_empty_canvas_leaves_no_window_focused() {
    let mut f = FocusState::new();
    f.update_focus_history(4);
    let e = f.apply_button_plan(ButtonPlan::ClearFocusAndForward);
    assert_eq!(e, ButtonEffect { raise: None, keyboard: KeyboardFocus::Clear, deactivate_all: true });
    assert_eq!(f.history(), &vec![4]);
    assert!(!f.active_focus());
    assert_eq!(f.focused(), None);
    assert_eq!(f.most_recent(), Some(4));
}

#[test]
fn grabs_move_keyboard_focus_without_history() {
    let mut f = FocusState::new();
    f.update_focus_history(4);
    let e = f.apply_button_plan(ButtonPlan::StartResize(9));
    assert_eq!(e, ButtonEffect { raise: None, keyboard: KeyboardFocus::Window(9), deactivate_all: false });
    assert_eq!(f.history(), &vec![4]);
    let e = f.apply_button_plan(ButtonPlan::Forward);
    assert_eq!(e.keyboard, KeyboardFocus::Keep);
}
