use canvaswm::programs::{launcher_candidates, startup_terminal_candidates, terminal_candidates};

fn lines(v: Vec<Vec<String>>) -> Vec<String> {
    v.into_iter().map(|c| c.join(" ")).collect()
}

#[test]
fn terminals_in_order() {
    assert_eq!(lines(terminal_candidates()), vec!["alacritty", "foot", "kitty", "gnome-terminal"]);
}

#[test]
fn launchers_in_order_with_arguments() {
    let l = launcher_candidates();
    assert_eq!(l[2], vec!["rofi".to_string(), "-show".to_string(), "drun".to_string()]);
    assert_eq!(lines(l), vec!["fuzzel", "wofi", "rofi -show drun", "bemenu-run"]);
}

#[test]
fn startup_terminals_in_order() {
    assert_eq!(lines(startup_terminal_candidates()), vec!["alacritty", "foot", "kitty"]);
}
