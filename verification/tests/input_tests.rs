use canvaswm::input::{
    axis_plan, ends_cycle, key_action, move_grab_ends, pointer_button_plan, Action, AxisPlan,
    ButtonPlan, Direction, Modifiers, BTN_LEFT, BTN_RIGHT, KEY_0, KEY_D, KEY_DOWN, KEY_EQUAL,
    KEY_ESCAPE, KEY_ISO_LEFT_TAB, KEY_LEFT, KEY_RETURN, KEY_RIGHT, KEY_TAB, KEY_UP, KEY_W,
};

const NONE: Modifiers = Modifiers { alt: false, shift: false, logo: false };
const SUPER: Modifiers = Modifiers { alt: false, shift: false, logo: true };
const SUPER_SHIFT: Modifiers = Modifiers { alt: false, shift: true, logo: true };
const ALT: Modifiers = Modifiers { alt: true, shift: false, logo: false };
const ALT_SHIFT: Modifiers = Modifiers { alt: true, shift: true, logo: false };

#[test]
fn unit_vectors() {
    assert_eq!(Direction::Up.to_unit_vec(), (0, -1));
    assert_eq!(Direction::Down.to_unit_vec(), (0, 1));
    assert_eq!(Direction::Left.to_unit_vec(), (-1, 0));
    assert_eq!(Direction::Right.to_unit_vec(), (1, 0));
}

#[test]
fn super_bindings() {
    assert_eq!(key_action(true, SUPER, KEY_RETURN), Some(Action::SpawnTerminal));
    assert_eq!(key_action(true, SUPER, KEY_D), Some(Action::SpawnLauncher));
    assert_eq!(key_action(true, SUPER, KEY_0), Some(Action::ResetCanvas));
    assert_eq!(key_action(true, SUPER, KEY_EQUAL), Some(Action::ZoomIn));
    assert_eq!(key_action(true, SUPER, KEY_W), Some(Action::ZoomToFit));
    assert_eq!(key_action(true, SUPER, KEY_ESCAPE), Some(Action::Quit));
    assert_eq!(key_action(true, SUPER, 0x71), Some(Action::CloseWindow));
    assert_eq!(key_action(true, SUPER, 0x78), None);
}

#[test]
fn super_arrows_navigate() {
    assert_eq!(
        key_action(true, SUPER, KEY_LEFT),
        Some(Action::NavigateDirection(Direction::Left))
    );
    assert_eq!(
        key_action(true, SUPER, KEY_DOWN),
        Some(Action::NavigateDirection(Direction::Down))
    );
}

#[test]
fn super_shift_arrows_nudge() {
    assert_eq!(
        key_action(true, SUPER_SHIFT, KEY_RIGHT),
        Some(Action::NudgeWindow(Direction::Right))
    );
    assert_eq!(
        key_action(true, SUPER_SHIFT, KEY_UP),
        Some(Action::NudgeWindow(Direction::Up))
    );
    // other Super+Shift keys keep their plain Super binding
    assert_eq!(key_action(true, SUPER_SHIFT, KEY_RETURN), Some(Action::SpawnTerminal));
}

#[test]
fn alt_tab_cycles() {
    assert_eq!(key_action(true, ALT, KEY_TAB), Some(Action::CycleForward));
    assert_eq!(key_action(true, ALT_SHIFT, KEY_TAB), Some(Action::CycleBackward));
}

#[test]
fn alt_shift_left_tab_cycles_backward() {
    assert_eq!(key_action(true, ALT_SHIFT, KEY_ISO_LEFT_TAB), Some(Action::CycleBackward));
    assert_eq!(key_action(true, ALT, KEY_ISO_LEFT_TAB), Some(Action::CycleBackward));
    assert_eq!(key_action(false, ALT_SHIFT, KEY_ISO_LEFT_TAB), None);
    assert_eq!(key_action(true, NONE, KEY_ISO_LEFT_TAB), None);
}

#[test]
fn releases_and_plain_keys_go_to_client() {
    assert_eq!(key_action(false, SUPER, KEY_RETURN), None);
    assert_eq!(key_action(true, NONE, KEY_RETURN), None);
    assert_eq!(key_action(true, ALT, KEY_RETURN), None);
}

#[test]
fn alt_release_ends_cycle() {
    assert!(ends_cycle(false, false, true));
    assert!(!ends_cycle(false, true, true));
    assert!(!ends_cycle(true, false, true));
    assert!(!ends_cycle(false, false, false));
}

#[test]
fn super_left_button_pans() {
    assert_eq!(pointer_button_plan(BTN_LEFT, true, SUPER, false, Some(1)), ButtonPlan::StartPan);
    assert_eq!(pointer_button_plan(BTN_LEFT, false, SUPER, true, None), ButtonPlan::EndPan);
}

#[test]
fn alt_drag_moves_and_resizes() {
    assert_eq!(pointer_button_plan(BTN_LEFT, true, ALT, false, Some(4)), ButtonPlan::StartMove(4));
    assert_eq!(pointer_button_plan(BTN_RIGHT, true, ALT, false, Some(4)), ButtonPlan::StartResize(4));
    assert_eq!(pointer_button_plan(0x112, true, ALT, false, Some(4)), ButtonPlan::Swallow);
    assert_eq!(pointer_button_plan(BTN_LEFT, true, ALT, false, None), ButtonPlan::ClearFocusAndForward);
}

#[test]
fn clicks_focus_or_clear() {
    assert_eq!(pointer_button_plan(BTN_LEFT, true, NONE, false, Some(2)), ButtonPlan::FocusAndForward(2));
    assert_eq!(pointer_button_plan(BTN_LEFT, true, NONE, false, None), ButtonPlan::ClearFocusAndForward);
    assert_eq!(pointer_button_plan(BTN_LEFT, true, NONE, true, Some(2)), ButtonPlan::Forward);
    assert_eq!(pointer_button_plan(BTN_LEFT, false, NONE, false, Some(2)), ButtonPlan::Forward);
}

#[test]
fn scroll_plans() {
    assert_eq!(axis_plan(true, true, true, false, false, false), AxisPlan::ZoomIn);
    assert_eq!(axis_plan(true, false, false, false, false, false), AxisPlan::ZoomOut);
    assert_eq!(
        axis_plan(false, true, false, true, true, true),
        AxisPlan::Pan { launch_momentum: true }
    );
    assert_eq!(
        axis_plan(false, true, false, true, true, false),
        AxisPlan::Pan { launch_momentum: false }
    );
    assert_eq!(
        axis_plan(false, true, false, false, true, true),
        AxisPlan::Pan { launch_momentum: false }
    );
    assert_eq!(axis_plan(false, true, true, true, true, true), AxisPlan::Forward);
}

#[test]
fn move_grab_ends_without_left_button() {
    assert!(move_grab_ends(&vec![]));
    assert!(move_grab_ends(&vec![BTN_RIGHT]));
    assert!(!move_grab_ends(&vec![BTN_RIGHT, BTN_LEFT]));
}
