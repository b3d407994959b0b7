//! Request handling for the control socket: clients send one JSON command
//! per line and get one JSON response per line.

use vstd::prelude::*;
use vstd::string::StringExecFns;
use crate::input::Direction;
use crate::text::{decimal, decimal_spec, str_eq, surround};

verus! {

#[verifier::external_type_specification]
#[verifier::external_body]
pub struct ExJsonValue(serde_json::Value);

/// A request that is well-formed and can be carried out.
#[derive(Debug, Clone, Copy, PartialEq, Eq, Structural)]
pub enum IpcCommand {
    /// Report viewport position, zoom and window count.
    GetState,
    /// List all windows with their positions and sizes.
    GetWindows,
    /// Focus the window at this index of the window list.
    FocusWindow(usize),
    /// Set the zoom level to the request's `zoom`.
    SetZoom,
    /// Animate the camera to the request's `x`/`y` (each defaulting to 0).
    PanTo,
    /// Reload the configuration.
    ReloadConfig,
    /// Pan the viewport one keyboard step in a direction.
    Navigate(Direction),
}

/// A request field that some commands need.
#[derive(Debug, Clone, Copy, PartialEq, Eq, Structural)]
pub enum IpcField {
    Id,
    Zoom,
    Direction,
}

/// Why a request is refused.
#[derive(Debug, Clone, PartialEq)]
pub enum IpcError {
    /// A field the command needs is absent.
    MissingField(IpcField),
    /// Shell execution over the socket is refused.
    ExecDisabled,
    /// `focus_window` named an index past the end of the window list.
    NoWindowAt(usize),
    /// `navigate` named something other than left/right/up/down.
    UnknownDirection(String),
    /// The command is not one of the known ones.
    UnknownCommand(String),
}

/// The name of a request field as clients write it.
pub open spec fn field_name(f: IpcField) -> Seq<char> {
    match f {
        IpcField::Id => "id"@,
        IpcField::Zoom => "zoom"@,
        IpcField::Direction => "direction"@,
    }
}

/// The error text sent back for a refused request.
pub open spec fn error_message(e: IpcError) -> Seq<char> {
    match e {
        IpcError::MissingField(f) => "missing '"@ + field_name(f) + "' field"@,
        IpcError::ExecDisabled => "'exec' command is disabled for security reasons"@,
        IpcError::NoWindowAt(i) => "No window at index "@ + decimal_spec(i as nat),
        IpcError::UnknownDirection(d) => "Unknown direction: "@ + d@,
        IpcError::UnknownCommand(c) => "Unknown command: "@ + c@,
    }
}

impl IpcError {
    /// The error text sent back to the client.
    pub fn message(&self) -> (r: String)
        ensures
            r@ == error_message(*self),
    {
        proof {
            reveal_strlit("");
            assert(""@.len() == 0);
            assert(""@ == Seq::<char>::empty());
        }
        match self {
            IpcError::MissingField(f) => {
                match f {
                    IpcField::Id => surround("missing '", "id", "' field"),
                    IpcField::Zoom => surround("missing '", "zoom", "' field"),
                    IpcField::Direction => surround("missing '", "direction", "' field"),
                }
            },
            IpcError::ExecDisabled => String::from_str(
                "'exec' command is disabled for security reasons",
            ),
            IpcError::NoWindowAt(i) => {
                let d = decimal(*i);
                surround("No window at index ", d.as_str(), "")
            },
            IpcError::UnknownDirection(d) => surround("Unknown direction: ", d.as_str(), ""),
            IpcError::UnknownCommand(c) => surround("Unknown command: ", c.as_str(), ""),
        }
    }
}

/// The direction a `navigate` request names.
pub open spec fn direction_named(s: Seq<char>) -> Option<Direction> {
    if s == "left"@ {
        Some(Direction::Left)
    } else if s == "right"@ {
        Some(Direction::Right)
    } else if s == "up"@ {
        Some(Direction::Up)
    } else if s == "down"@ {
        Some(Direction::Down)
    } else {
        None
    }
}

/// Reads a direction name: "left", "right", "up" or "down".
pub fn parse_direction(s: &str) -> (r: Option<Direction>)
    ensures
        r == direction_named(s@),
{
    proof {
        reveal_strlit("left");
        reveal_strlit("right");
        reveal_strlit("up");
        reveal_strlit("down");
        assert("left"@.len() == 4 && "left"@[0] == 'l');
        assert("right"@.len() == 5);
        assert("up"@.len() == 2);
        assert("down"@.len() == 4 && "down"@[0] == 'd');
    }
    if str_eq(s, "left") {
        Some(Direction::Left)
    } else if str_eq(s, "right") {
        Some(Direction::Right)
    } else if str_eq(s, "up") {
        Some(Direction::Up)
    } else if str_eq(s, "down") {
        Some(Direction::Down)
    } else {
        None
    }
}

/// The commands the socket understands (including the refused `exec`).
pub open spec fn known_command(c: Seq<char>) -> bool {
    ||| c == "get_state"@
    ||| c == "get_windows"@
    ||| c == "focus_window"@
    ||| c == "set_zoom"@
    ||| c == "pan_to"@
    ||| c == "reload_config"@
    ||| c == "exec"@
    ||| c == "navigate"@
}

/// Decides how to answer a request, given its fields and the number of
/// mapped windows: the command to carry out, or why it is refused.
pub fn plan_request(
    cmd: &str,
    id: Option<usize>,
    zoom_given: bool,
    direction: Option<&str>,
    window_count: usize,
) -> (r: Result<IpcCommand, IpcError>)
    ensures
        cmd@ == "get_state"@ ==> r == Ok::<IpcCommand, IpcError>(IpcCommand::GetState),
        cmd@ == "get_windows"@ ==> r == Ok::<IpcCommand, IpcError>(IpcCommand::GetWindows),
        cmd@ == "focus_window"@ ==> r == match id {
            None => Err(IpcError::MissingField(IpcField::Id)),
            Some(i) => if i < window_count {
                Ok(IpcCommand::FocusWindow(i))
            } else {
                Err(IpcError::NoWindowAt(i))
            },
        },
        cmd@ == "set_zoom"@ ==> r == (if zoom_given {
            Ok::<IpcCommand, IpcError>(IpcCommand::SetZoom)
        } else {
            Err(IpcError::MissingField(IpcField::Zoom))
        }),
        cmd@ == "pan_to"@ ==> r == Ok::<IpcCommand, IpcError>(IpcCommand::PanTo),
        cmd@ == "reload_config"@ ==> r == Ok::<IpcCommand, IpcError>(IpcCommand::ReloadConfig),
        cmd@ == "exec"@ ==> r == Err::<IpcCommand, IpcError>(IpcError::ExecDisabled),
        cmd@ == "navigate"@ && direction is None ==> r == Err::<IpcCommand, IpcError>(
            IpcError::MissingField(IpcField::Direction),
        ),
        cmd@ == "navigate"@ && direction is Some && direction_named(direction.unwrap()@) is Some
            ==> r == Ok::<IpcCommand, IpcError>(
            IpcCommand::Navigate(direction_named(direction.unwrap()@).unwrap()),
        ),
        cmd@ == "navigate"@ && direction is Some && direction_named(direction.unwrap()@) is None
            ==> (r matches Err(IpcError::UnknownDirection(d)) && d@ == direction.unwrap()@),
        !known_command(cmd@) ==> (r matches Err(IpcError::UnknownCommand(c)) && c@ == cmd@),
{
    proof {
        reveal_strlit("get_state");
        reveal_strlit("get_windows");
        reveal_strlit("focus_window");
        reveal_strlit("set_zoom");
        reveal_strlit("pan_to");
        reveal_strlit("reload_config");
        reveal_strlit("exec");
        reveal_strlit("navigate");
        assert("get_state"@.len() == 9);
        assert("get_windows"@.len() == 11);
        assert("focus_window"@.len() == 12);
        assert("set_zoom"@.len() == 8 && "set_zoom"@[0] == 's');
        assert("pan_to"@.len() == 6);
        assert("reload_config"@.len() == 13);
        assert("exec"@.len() == 4);
        assert("navigate"@.len() == 8 && "navigate"@[0] == 'n');
    }
    if str_eq(cmd, "get_state") {
        Ok(IpcCommand::GetState)
    } else if str_eq(cmd, "get_windows") {
        Ok(IpcCommand::GetWindows)
    } else if str_eq(cmd, "focus_window") {
        match id {
            None => Err(IpcError::MissingField(IpcField::Id)),
            Some(i) => if i < window_count {
                Ok(IpcCommand::FocusWindow(i))
            } else {
                Err(IpcError::NoWindowAt(i))
            },
        }
    } else if str_eq(cmd, "set_zoom") {
        if zoom_given {
            Ok(IpcCommand::SetZoom)
        } else {
            Err(IpcError::MissingField(IpcField::Zoom))
        }
    } else if str_eq(cmd, "pan_to") {
        Ok(IpcCommand::PanTo)
    } else if str_eq(cmd, "reload_config") {
        Ok(IpcCommand::ReloadConfig)
    } else if str_eq(cmd, "exec") {
        Err(IpcError::ExecDisabled)
    } else if str_eq(cmd, "navigate") {
        match direction {
            None => Err(IpcError::MissingField(IpcField::Direction)),
            Some(d) => match parse_direction(d) {
                Some(dir) => Ok(IpcCommand::Navigate(dir)),
                None => Err(IpcError::UnknownDirection(String::from_str(d))),
            },
        }
    } else {
        Err(IpcError::UnknownCommand(String::from_str(cmd)))
    }
}

/// IPC response to a client.
pub struct IpcResponse {
    pub ok: bool,
    pub error: Option<String>,
    pub data: Option<serde_json::Value>,
}

impl IpcResponse {
    /// A successful answer carrying data.
    pub fn success(data: serde_json::Value) -> (r: IpcResponse)
        ensures
            r.ok,
            r.error is None,
            r.data == Some(data),
    {
        IpcResponse { ok: true, error: None, data: Some(data) }
    }

    /// A refusal with an error text.
    pub fn error(msg: String) -> (r: IpcResponse)
        ensures
            !r.ok,
            r.error == Some(msg),
            r.data is None,
    {
        IpcResponse { ok: false, error: Some(msg), data: None }
    }

    /// A bare acknowledgement.
    pub fn ok() -> (r: IpcResponse)
        ensures
            r.ok,
            r.error is None,
            r.data is None,
    {
        IpcResponse { ok: true, error: None, data: None }
    }

    /// The refusal for a request that `plan_request` turned down.
    pub fn refused(e: &IpcError) -> (r: IpcResponse)
        ensures
            !r.ok,
            r.error matches Some(m) && m@ == error_message(*e),
            r.data is None,
    {
        IpcResponse::error(e.message())
    }
}

/// What the compositor knows of a mapped window, in stacking order.
pub struct WindowRecord {
    pub id: u64,
    pub x: i32,
    pub y: i32,
    pub width: i32,
    pub height: i32,
    pub app_id: String,
    pub title: String,
}

/// Window info for IPC response.
pub struct WindowInfo {
    pub index: usize,
    pub x: i32,
    pub y: i32,
    pub width: i32,
    pub height: i32,
    pub app_id: String,
    pub title: String,
    pub focused: bool,
}

/// `info` reports window `w`, found at index `i` of the window list.
pub open spec fn describes(info: WindowInfo, w: WindowRecord, i: int, focused: Option<u64>) -> bool {
    &&& info.index == i
    &&& info.x == w.x
    &&& info.y == w.y
    &&& info.width == w.width
    &&& info.height == w.height
    &&& info.app_id@ == w.app_id@
    &&& info.title@ == w.title@
    &&& info.focused == (focused == Some(w.id))
}

/// The window list a `get_windows` request answers with: every window with
/// its index, and the focused one marked.
pub fn window_infos(windows: &Vec<WindowRecord>, focused: Option<u64>) -> (r: Vec<WindowInfo>)
    ensures
        r.len() == windows.len(),
        forall|i: int| 0 <= i < r.len() ==> describes(#[trigger] r@[i], windows@[i], i, focused),
{
    let mut r: Vec<WindowInfo> = Vec::new();
    let n = windows.len();
    let mut i: usize = 0;
    while i < n
        invariant
            n == windows.len(),
            i <= n,
            r.len() == i,
            forall|k: int| 0 <= k < i ==> describes(#[trigger] r@[k], windows@[k], k, focused),
        decreases n - i,
    {
        let w = &windows[i];
        assert(windows@[i as int] == *w);
        let is_focused = match focused {
            Some(f) => f == w.id,
            None => false,
        };
        r.push(
            WindowInfo {
                index: i,
                x: w.x,
                y: w.y,
                width: w.width,
                height: w.height,
                app_id: w.app_id.clone(),
                title: w.title.clone(),
                focused: is_focused,
            },
        );
        proof {
            let ghost k = i as int;
            assert(describes(r@[k], windows@[k], k, focused));
        }
        i = i + 1;
    }
    r
}

} // verus!
