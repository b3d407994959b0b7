use vstd::prelude::*;

verus! {

/// Actions the compositor can perform in response to input.
#[derive(Debug, Clone, PartialEq)]
pub enum Action {
    /// Open a terminal emulator.
    SpawnTerminal,
    /// Open an application launcher.
    SpawnLauncher,
    /// Close the focused window.
    CloseWindow,
    /// Reset the canvas viewport to origin and zoom 1.0.
    ResetCanvas,
    /// Zoom in centered on cursor.
    ZoomIn,
    /// Zoom out centered on cursor.
    ZoomOut,
    /// Zoom-to-fit: zoom out to show all windows.
    ZoomToFit,
    /// Center the focused window in the viewport.
    CenterWindow,
    /// Toggle fullscreen for focused window.
    ToggleFullscreen,
    /// Fit window to viewport (maximize/restore toggle).
    FitWindow,
    /// Navigate to nearest window in a direction.
    NavigateDirection(Direction),
    /// Pan viewport by keyboard step.
    PanDirection(Direction),
    /// Nudge focused window position.
    NudgeWindow(Direction),
    /// Toggle home: go to (0,0) or return to previous position.
    HomeToggle,
    /// Cycle windows forward (Alt-Tab).
    CycleForward,
    /// Cycle windows backward (Alt-Shift-Tab).
    CycleBackward,
    /// Reload config file.
    ReloadConfig,
    /// Execute a shell command.
    Exec(String),
    /// Quit the compositor.
    Quit,
}

/// Cardinal directions for navigation.
#[derive(Debug, Clone, Copy, PartialEq, Eq, Structural)]
pub enum Direction {
    Up,
    Down,
    Left,
    Right,
}

/// The unit step of a direction on screen axes (y grows downwards).
pub open spec fn unit_vec_spec(d: Direction) -> (int, int) {
    match d {
        Direction::Up => (0, -1),
        Direction::Down => (0, 1),
        Direction::Left => (-1, 0),
        Direction::Right => (1, 0),
    }
}

impl Direction {
    /// Unit vector for this direction, as whole-number screen steps.
    pub fn to_unit_vec(&self) -> (r: (i32, i32))
        ensures
            (r.0 as int, r.1 as int) == unit_vec_spec(*self),
    {
        match self {
            Direction::Up => (0, -1),
            Direction::Down => (0, 1),
            Direction::Left => (-1, 0),
            Direction::Right => (1, 0),
        }
    }
}

/// Modifier keys held while an input event happens.
#[derive(Debug, Clone, Copy, PartialEq, Eq, Structural)]
pub struct Modifiers {
    pub alt: bool,
    pub shift: bool,
    /// The Super ("logo") key.
    pub logo: bool,
}

/// Keysym values of the keys bound by the compositor.
pub const KEY_TAB: u32 = 0xff09;
/// Tab as it arrives while Shift is held (ISO_Left_Tab).
pub const KEY_ISO_LEFT_TAB: u32 = 0xfe20;
pub const KEY_RETURN: u32 = 0xff0d;
pub const KEY_ESCAPE: u32 = 0xff1b;
pub const KEY_HOME: u32 = 0xff50;
pub const KEY_LEFT: u32 = 0xff51;
pub const KEY_UP: u32 = 0xff52;
pub const KEY_RIGHT: u32 = 0xff53;
pub const KEY_DOWN: u32 = 0xff54;
pub const KEY_0: u32 = 0x30;
pub const KEY_EQUAL: u32 = 0x3d;
pub const KEY_MINUS: u32 = 0x2d;
pub const KEY_C: u32 = 0x63;
pub const KEY_D: u32 = 0x64;
pub const KEY_F: u32 = 0x66;
pub const KEY_Q: u32 = 0x71;
pub const KEY_R: u32 = 0x72;
pub const KEY_W: u32 = 0x77;

/// Mouse button codes (linux/input-event-codes.h).
pub const BTN_LEFT: u32 = 0x110;
pub const BTN_RIGHT: u32 = 0x111;

/// The direction an arrow key stands for.
pub open spec fn arrow_direction(sym: u32) -> Option<Direction> {
    if sym == KEY_LEFT {
        Some(Direction::Left)
    } else if sym == KEY_RIGHT {
        Some(Direction::Right)
    } else if sym == KEY_UP {
        Some(Direction::Up)
    } else if sym == KEY_DOWN {
        Some(Direction::Down)
    } else {
        None
    }
}

/// The table of Super+key bindings (without Shift-specific ones).
pub open spec fn super_binding(sym: u32) -> Option<Action> {
    if sym == KEY_RETURN {
        Some(Action::SpawnTerminal)
    } else if sym == KEY_D {
        Some(Action::SpawnLauncher)
    } else if sym == KEY_Q {
        Some(Action::CloseWindow)
    } else if sym == KEY_0 {
        Some(Action::ResetCanvas)
    } else if sym == KEY_EQUAL {
        Some(Action::ZoomIn)
    } else if sym == KEY_MINUS {
        Some(Action::ZoomOut)
    } else if sym == KEY_W {
        Some(Action::ZoomToFit)
    } else if sym == KEY_C {
        Some(Action::CenterWindow)
    } else if sym == KEY_F {
        Some(Action::ToggleFullscreen)
    } else if sym == KEY_HOME {
        Some(Action::HomeToggle)
    } else if sym == KEY_R {
        Some(Action::ReloadConfig)
    } else if sym == KEY_ESCAPE {
        Some(Action::Quit)
    } else {
        match arrow_direction(sym) {
            Some(d) => Some(Action::NavigateDirection(d)),
            None => None,
        }
    }
}

/// The action a key event triggers, if the compositor intercepts it.
pub open spec fn key_binding(pressed: bool, mods: Modifiers, sym: u32) -> Option<Action> {
    if !pressed {
        None
    } else if mods.alt && sym == KEY_ISO_LEFT_TAB {
        Some(Action::CycleBackward)
    } else if mods.alt && sym == KEY_TAB {
        if mods.shift {
            Some(Action::CycleBackward)
        } else {
            Some(Action::CycleForward)
        }
    } else if mods.logo {
        if mods.shift && arrow_direction(sym) is Some {
            Some(Action::NudgeWindow(arrow_direction(sym).unwrap()))
        } else {
            super_binding(sym)
        }
    } else {
        None
    }
}

/// Releasing a key never triggers a compositor action.
pub proof fn law_release_never_binds(mods: Modifiers, sym: u32)
    ensures
        key_binding(false, mods, sym) is None,
{
}

/// Without Alt or Super held, no key is intercepted: it goes to the client.
pub proof fn law_plain_keys_reach_client(pressed: bool, shift: bool, sym: u32)
    ensures
        key_binding(pressed, Modifiers { alt: false, shift, logo: false }, sym) is None,
{
}

/// With Super held and Alt not, each key of the binding table gives its
/// action, whether or not Shift is held.
pub proof fn law_super_key_table(shift: bool)
    ensures
        ({
            let m = Modifiers { alt: false, shift, logo: true };
            &&& key_binding(true, m, KEY_RETURN) == Some(Action::SpawnTerminal)
            &&& key_binding(true, m, KEY_D) == Some(Action::SpawnLauncher)
            &&& key_binding(true, m, KEY_Q) == Some(Action::CloseWindow)
            &&& key_binding(true, m, KEY_0) == Some(Action::ResetCanvas)
            &&& key_binding(true, m, KEY_EQUAL) == Some(Action::ZoomIn)
            &&& key_binding(true, m, KEY_MINUS) == Some(Action::ZoomOut)
            &&& key_binding(true, m, KEY_W) == Some(Action::ZoomToFit)
            &&& key_binding(true, m, KEY_C) == Some(Action::CenterWindow)
            &&& key_binding(true, m, KEY_F) == Some(Action::ToggleFullscreen)
            &&& key_binding(true, m, KEY_HOME) == Some(Action::HomeToggle)
            &&& key_binding(true, m, KEY_R) == Some(Action::ReloadConfig)
            &&& key_binding(true, m, KEY_ESCAPE) == Some(Action::Quit)
        }),
{
}

/// Super plus an arrow navigates that way; with Shift too it nudges the
/// focused window that way.
pub proof fn law_super_arrows(shift: bool)
    ensures
        ({
            let m = Modifiers { alt: false, shift, logo: true };
            let step = |d: Direction|
                if shift { Action::NudgeWindow(d) } else { Action::NavigateDirection(d) };
            &&& key_binding(true, m, KEY_LEFT) == Some(step(Direction::Left))
            &&& key_binding(true, m, KEY_RIGHT) == Some(step(Direction::Right))
            &&& key_binding(true, m, KEY_UP) == Some(step(Direction::Up))
            &&& key_binding(true, m, KEY_DOWN) == Some(step(Direction::Down))
        }),
{
}

/// Each action comes from one key only, and only on a press: whatever the
/// modifiers, an action implies the key that the table binds it to.
pub proof fn law_each_action_has_its_key(pressed: bool, mods: Modifiers, sym: u32)
    ensures
        ({
            let r = key_binding(pressed, mods, sym);
            &&& r is Some ==> pressed
            &&& r == Some(Action::SpawnTerminal) ==> sym == KEY_RETURN
            &&& r == Some(Action::SpawnLauncher) ==> sym == KEY_D
            &&& r == Some(Action::CloseWindow) ==> sym == KEY_Q
            &&& r == Some(Action::ResetCanvas) ==> sym == KEY_0
            &&& r == Some(Action::ZoomIn) ==> sym == KEY_EQUAL
            &&& r == Some(Action::ZoomOut) ==> sym == KEY_MINUS
            &&& r == Some(Action::ZoomToFit) ==> sym == KEY_W
            &&& r == Some(Action::CenterWindow) ==> sym == KEY_C
            &&& r == Some(Action::ToggleFullscreen) ==> sym == KEY_F
            &&& r == Some(Action::HomeToggle) ==> sym == KEY_HOME
            &&& r == Some(Action::ReloadConfig) ==> sym == KEY_R
            &&& r == Some(Action::Quit) ==> sym == KEY_ESCAPE
            &&& r == Some(Action::CycleForward) ==> sym == KEY_TAB && mods.alt && !mods.shift
            &&& r == Some(Action::CycleBackward) ==> mods.alt && (sym == KEY_ISO_LEFT_TAB || (sym
                == KEY_TAB && mods.shift))
            &&& r == Some(Action::NavigateDirection(Direction::Left)) ==> sym == KEY_LEFT
            &&& r == Some(Action::NavigateDirection(Direction::Right)) ==> sym == KEY_RIGHT
            &&& r == Some(Action::NavigateDirection(Direction::Up)) ==> sym == KEY_UP
            &&& r == Some(Action::NavigateDirection(Direction::Down)) ==> sym == KEY_DOWN
            &&& r == Some(Action::NudgeWindow(Direction::Left)) ==> sym == KEY_LEFT && mods.shift
            &&& r == Some(Action::NudgeWindow(Direction::Right)) ==> sym == KEY_RIGHT && mods.shift
            &&& r == Some(Action::NudgeWindow(Direction::Up)) ==> sym == KEY_UP && mods.shift
            &&& r == Some(Action::NudgeWindow(Direction::Down)) ==> sym == KEY_DOWN && mods.shift
        }),
{
}

fn arrow_of(sym: u32) -> (r: Option<Direction>)
    ensures
        r == arrow_direction(sym),
{
    if sym == KEY_LEFT {
        Some(Direction::Left)
    } else if sym == KEY_RIGHT {
        Some(Direction::Right)
    } else if sym == KEY_UP {
        Some(Direction::Up)
    } else if sym == KEY_DOWN {
        Some(Direction::Down)
    } else {
        None
    }
}

/// Decides which compositor action, if any, a key event triggers. `sym` is
/// the keysym after modifiers are applied; `pressed` tells a press from a
/// release. Events that yield `None` go on to the focused client.
pub fn key_action(pressed: bool, mods: Modifiers, sym: u32) -> (r: Option<Action>)
    ensures
        r == key_binding(pressed, mods, sym),
{
    if !pressed {
        return None;
    }
    if mods.alt && sym == KEY_ISO_LEFT_TAB {
        return Some(Action::CycleBackward);
    }
    if mods.alt && sym == KEY_TAB {
        if mods.shift {
            return Some(Action::CycleBackward);
        }
        return Some(Action::CycleForward);
    }
    if !mods.logo {
        return None;
    }
    let arrow = arrow_of(sym);
    if mods.shift {
        if let Some(d) = arrow {
            return Some(Action::NudgeWindow(d));
        }
    }
    if sym == KEY_RETURN {
        Some(Action::SpawnTerminal)
    } else if sym == KEY_D {
        Some(Action::SpawnLauncher)
    } else if sym == KEY_Q {
        Some(Action::CloseWindow)
    } else if sym == KEY_0 {
        Some(Action::ResetCanvas)
    } else if sym == KEY_EQUAL {
        Some(Action::ZoomIn)
    } else if sym == KEY_MINUS {
        Some(Action::ZoomOut)
    } else if sym == KEY_W {
        Some(Action::ZoomToFit)
    } else if sym == KEY_C {
        Some(Action::CenterWindow)
    } else if sym == KEY_F {
        Some(Action::ToggleFullscreen)
    } else if sym == KEY_HOME {
        Some(Action::HomeToggle)
    } else if sym == KEY_R {
        Some(Action::ReloadConfig)
    } else if sym == KEY_ESCAPE {
        Some(Action::Quit)
    } else {
        match arrow {
            Some(d) => Some(Action::NavigateDirection(d)),
            None => None,
        }
    }
}

/// Whether a key event ends an Alt-Tab cycle in progress: a key release
/// after which Alt is no longer held.
pub fn ends_cycle(pressed: bool, alt_held: bool, cycling: bool) -> (r: bool)
    ensures
        r == (!pressed && !alt_held && cycling),
{
    !pressed && !alt_held && cycling
}

/// What a pointer button event does.
#[derive(Debug, Clone, Copy, PartialEq, Eq, Structural)]
pub enum ButtonPlan {
    /// Super+LMB pressed: start panning the viewport, stop momentum.
    StartPan,
    /// Super+LMB released: stop panning, launch momentum.
    EndPan,
    /// Alt+LMB on a window: start moving it.
    StartMove(u64),
    /// Alt+RMB on a window: start resizing it from its bottom-right corner.
    StartResize(u64),
    /// Alt+other button on a window: swallowed.
    Swallow,
    /// Click on a window: raise and focus it, then forward the event.
    FocusAndForward(u64),
    /// Click on empty canvas: deactivate all windows, then forward.
    ClearFocusAndForward,
    /// Forward the event unchanged.
    Forward,
}

/// The decision for a pointer button event, as a spec.
pub open spec fn button_plan_spec(
    button: u32,
    pressed: bool,
    mods: Modifiers,
    grabbed: bool,
    under: Option<u64>,
) -> ButtonPlan {
    if button == BTN_LEFT && mods.logo {
        if pressed { ButtonPlan::StartPan } else { ButtonPlan::EndPan }
    } else if pressed && mods.alt && !grabbed && under is Some {
        if button == BTN_LEFT {
            ButtonPlan::StartMove(under.unwrap())
        } else if button == BTN_RIGHT {
            ButtonPlan::StartResize(under.unwrap())
        } else {
            ButtonPlan::Swallow
        }
    } else if pressed && !grabbed {
        match under {
            Some(w) => ButtonPlan::FocusAndForward(w),
            None => ButtonPlan::ClearFocusAndForward,
        }
    } else {
        ButtonPlan::Forward
    }
}

/// Super with the left button pans the viewport, whatever else holds:
/// a press starts panning and a release stops it.
pub proof fn law_super_left_button_pans(
    pressed: bool,
    mods: Modifiers,
    grabbed: bool,
    under: Option<u64>,
)
    requires
        mods.logo,
    ensures
        button_plan_spec(BTN_LEFT, pressed, mods, grabbed, under) == (if pressed {
            ButtonPlan::StartPan
        } else {
            ButtonPlan::EndPan
        }),
{
}

/// Only the left button pans. Any other button, pressed without Alt while
/// no grab is active, focuses the window under the cursor (or clears focus
/// over empty canvas), Super or not.
pub proof fn law_only_left_button_pans(
    button: u32,
    pressed: bool,
    mods: Modifiers,
    grabbed: bool,
    under: Option<u64>,
)
    requires
        button != BTN_LEFT,
    ensures
        !(button_plan_spec(button, pressed, mods, grabbed, under) is StartPan),
        !(button_plan_spec(button, pressed, mods, grabbed, under) is EndPan),
        pressed && !grabbed && !mods.alt ==> button_plan_spec(button, pressed, mods, grabbed, under)
            == match under {
            Some(w) => ButtonPlan::FocusAndForward(w),
            None => ButtonPlan::ClearFocusAndForward,
        },
{
}

/// Decides what a pointer button event does. `under` is the window under
/// the cursor, `grabbed` whether a pointer grab is active.
pub fn pointer_button_plan(
    button: u32,
    pressed: bool,
    mods: Modifiers,
    grabbed: bool,
    under: Option<u64>,
) -> (r: ButtonPlan)
    ensures
        r == button_plan_spec(button, pressed, mods, grabbed, under),
{
    if button == BTN_LEFT && mods.logo {
        return if pressed { ButtonPlan::StartPan } else { ButtonPlan::EndPan };
    }
    if pressed && mods.alt && !grabbed {
        if let Some(w) = under {
            if button == BTN_LEFT {
                return ButtonPlan::StartMove(w);
            } else if button == BTN_RIGHT {
                return ButtonPlan::StartResize(w);
            }
            return ButtonPlan::Swallow;
        }
    }
    if pressed && !grabbed {
        match under {
            Some(w) => ButtonPlan::FocusAndForward(w),
            None => ButtonPlan::ClearFocusAndForward,
        }
    } else {
        ButtonPlan::Forward
    }
}

/// What a scroll event does.
#[derive(Debug, Clone, Copy, PartialEq, Eq, Structural)]
pub enum AxisPlan {
    /// Super+scroll up: zoom in at the cursor.
    ZoomIn,
    /// Super+scroll down (or no vertical motion): zoom out at the cursor.
    ZoomOut,
    /// Scroll over empty canvas: pan, and launch momentum when a finger
    /// scroll has stopped on both axes.
    Pan { launch_momentum: bool },
    /// Scroll over a window: forward it to the client.
    Forward,
}

/// Decides what a scroll event does. `scroll_up` is whether the vertical
/// amount is negative; `h_stopped`/`v_stopped` whether each axis reported
/// an amount of exactly zero.
pub fn axis_plan(
    logo: bool,
    scroll_up: bool,
    over_window: bool,
    finger: bool,
    h_stopped: bool,
    v_stopped: bool,
) -> (r: AxisPlan)
    ensures
        logo ==> r == (if scroll_up { AxisPlan::ZoomIn } else { AxisPlan::ZoomOut }),
        !logo && !over_window ==> r == (AxisPlan::Pan {
            launch_momentum: finger && h_stopped && v_stopped,
        }),
        !logo && over_window ==> r == AxisPlan::Forward,
{
    if logo {
        if scroll_up { AxisPlan::ZoomIn } else { AxisPlan::ZoomOut }
    } else if !over_window {
        AxisPlan::Pan { launch_momentum: finger && h_stopped && v_stopped }
    } else {
        AxisPlan::Forward
    }
}

/// Whether a window-move grab ends after a button event: it ends once the
/// left button is no longer among the pressed buttons.
pub fn move_grab_ends(pressed_buttons: &Vec<u32>) -> (r: bool)
    ensures
        r == !pressed_buttons@.contains(BTN_LEFT),
{
    let n = pressed_buttons.len();
    let mut i: usize = 0;
    while i < n
        invariant
            n == pressed_buttons.len(),
            i <= n,
            forall|k: int| 0 <= k < i ==> pressed_buttons@[k] != BTN_LEFT,
        decreases n - i,
    {
        if pressed_buttons[i] == BTN_LEFT {
            assert(pressed_buttons@[i as int] == BTN_LEFT);
            return false;
        }
        i = i + 1;
    }
    true
}

} // verus!
