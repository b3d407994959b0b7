use canvaswm::input::Direction;
use canvaswm::ipc::{
    parse_direction, plan_request, window_infos, IpcCommand, IpcError, IpcField, IpcResponse,
    WindowRecord,
};

#[test]
fn simple_commands() {
    assert_eq!(plan_request("get_state", None, false, None, 0), Ok(IpcCommand::GetState));
    assert_eq!(plan_request("get_windows", None, false, None, 0), Ok(IpcCommand::GetWindows));
    assert_eq!(plan_request("pan_to", None, false, None, 0), Ok(IpcCommand::PanTo));
    assert_eq!(plan_request("reload_config", None, false, None, 0), Ok(IpcCommand::ReloadConfig));
}

#[test]
fn focus_window_needs_valid_id() {
    assert_eq!(plan_request("focus_window", Some(1), false, None, 2), Ok(IpcCommand::FocusWindow(1)));
    let e = plan_request("focus_window", Some(2), false, None, 2).unwrap_err();
    assert_eq!(e, IpcError::NoWindowAt(2));
    assert_eq!(e.message(), "No window at index 2");
    let e = plan_request("focus_window", None, false, None, 2).unwrap_err();
    assert_eq!(e.message(), "missing 'id' field");
    assert_eq!(IpcError::NoWindowAt(1207).message(), "No window at index 1207");
}

#[test]
fn set_zoom_needs_zoom() {
    assert_eq!(plan_request("set_zoom", None, true, None, 0), Ok(IpcCommand::SetZoom));
    let e = plan_request("set_zoom", None, false, None, 0).unwrap_err();
    assert_eq!(e, IpcError::MissingField(IpcField::Zoom));
    assert_eq!(e.message(), "missing 'zoom' field");
}

#[test]
fn exec_is_refused() {
    let e = plan_request("exec", None, false, None, 0).unwrap_err();
    assert_eq!(e.message(), "'exec' command is disabled for security reasons");
}

#[test]
fn navigate_directions() {
    assert_eq!(
        plan_request("navigate", None, false, Some("left"), 0),
        Ok(IpcCommand::Navigate(Direction::Left))
    );
    assert_eq!(
        plan_request("navigate", None, false, Some("down"), 0),
        Ok(IpcCommand::Navigate(Direction::Down))
    );
    let e = plan_request("navigate", None, false, Some("sideways"), 0).unwrap_err();
    assert_eq!(e.message(), "Unknown direction: sideways");
    let e = plan_request("navigate", None, false, None, 0).unwrap_err();
    assert_eq!(e.message(), "missing 'direction' field");
    assert_eq!(parse_direction("up"), Some(Direction::Up));
    assert_eq!(parse_direction("right"), Some(Direction::Right));
    assert_eq!(parse_direction("Left"), None);
}

#[test]
fn unknown_command() {
    let e = plan_request("dance", None, false, None, 0).unwrap_err();
    assert_eq!(e, IpcError::UnknownCommand("dance".to_string()));
    assert_eq!(e.message(), "Unknown command: dance");
}

#[test]
fn responses() {
    let r = IpcResponse::ok();
    assert!(r.ok && r.error.is_none() && r.data.is_none());
    let r = IpcResponse::error("nope".to_string());
    assert!(!r.ok);
    assert_eq!(r.error.as_deref(), Some("nope"));
    let r = IpcResponse::success(serde_json::Value::Bool(true));
    assert!(r.ok);
    assert_eq!(r.data, Some(serde_json::Value::Bool(true)));
    let r = IpcResponse::refused(&IpcError::ExecDisabled);
    assert_eq!(
        r.error.as_deref(),
        Some("'exec' command is disabled for security reasons")
    );
}

#[test]
fn window_list_marks_focus() {
    let windows = vec![
        WindowRecord { id: 10, x: 1, y: 2, width: 3, height: 4, app_id: "a".into(), title: "A".into() },
        WindowRecord { id: 11, x: 5, y: 6, width: 7, height: 8, app_id: "b".into(), title: "B".into() },
    ];
    let infos = window_infos(&windows, Some(11));
    assert_eq!(infos.len(), 2);
    assert_eq!(infos[0].index, 0);
    assert!(!infos[0].focused);
    assert_eq!(infos[1].index, 1);
    assert!(infos[1].focused);
    assert_eq!(infos[1].app_id, "b");
    assert_eq!(infos[1].title, "B");
    assert_eq!((infos[1].x, infos[1].y, infos[1].width, infos[1].height), (5, 6, 7, 8));
    let none = window_infos(&windows, None);
    assert!(none.iter().all(|i| !i.focused));
}
