//! The programs the compositor starts on its own: terminals and launchers,
//! each tried in turn until one starts.

use vstd::prelude::*;
use vstd::string::StringExecFns;

verus! {

/// A list of command lines (program, then its arguments) as character
/// sequences.
pub open spec fn command_lines(r: Seq<Vec<String>>) -> Seq<Seq<Seq<char>>> {
    r.map_values(|c: Vec<String>| c@.map_values(|s: String| s@))
}

/// Terminals tried, in order, for Super+Return.
pub open spec fn terminal_programs() -> Seq<Seq<Seq<char>>> {
    seq![seq!["alacritty"@], seq!["foot"@], seq!["kitty"@], seq!["gnome-terminal"@]]
}

/// Launchers tried, in order, for Super+D.
pub open spec fn launcher_programs() -> Seq<Seq<Seq<char>>> {
    seq![seq!["fuzzel"@], seq!["wofi"@], seq!["rofi"@, "-show"@, "drun"@], seq!["bemenu-run"@]]
}

/// Terminals tried, in order, for the client started with the compositor
/// when no command is given.
pub open spec fn startup_terminal_programs() -> Seq<Seq<Seq<char>>> {
    seq![seq!["alacritty"@], seq!["foot"@], seq!["kitty"@]]
}

fn command(words: &[&str]) -> (r: Vec<String>)
    ensures
        r@.len() == words@.len(),
        forall|k: int| 0 <= k < r@.len() ==> #[trigger] r@[k]@ == words@[k]@,
{
    let mut r: Vec<String> = Vec::new();
    let n = words.len();
    let mut i: usize = 0;
    while i < n
        invariant
            n == words@.len(),
            i <= n,
            r@.len() == i,
            forall|k: int| 0 <= k < i ==> #[trigger] r@[k]@ == words@[k]@,
        decreases n - i,
    {
        r.push(String::from_str(words[i]));
        i = i + 1;
    }
    r
}

/// The command lines tried for Super+Return.
pub fn terminal_candidates() -> (r: Vec<Vec<String>>)
    ensures
        command_lines(r@) == terminal_programs(),
{
    let mut r: Vec<Vec<String>> = Vec::new();
    r.push(command(&["alacritty"]));
    r.push(command(&["foot"]));
    r.push(command(&["kitty"]));
    r.push(command(&["gnome-terminal"]));
    assert(command_lines(r@) =~~= terminal_programs());
    r
}

/// The command lines tried for Super+D.
pub fn launcher_candidates() -> (r: Vec<Vec<String>>)
    ensures
        command_lines(r@) == launcher_programs(),
{
    let mut r: Vec<Vec<String>> = Vec::new();
    r.push(command(&["fuzzel"]));
    r.push(command(&["wofi"]));
    r.push(command(&["rofi", "-show", "drun"]));
    r.push(command(&["bemenu-run"]));
    assert(command_lines(r@) =~~= launcher_programs());
    r
}

/// The command lines tried for the client started with the compositor.
pub fn startup_terminal_candidates() -> (r: Vec<Vec<String>>)
    ensures
        command_lines(r@) == startup_terminal_programs(),
{
    let mut r: Vec<Vec<String>> = Vec::new();
    r.push(command(&["alacritty"]));
    r.push(command(&["foot"]));
    r.push(command(&["kitty"]));
    assert(command_lines(r@) =~~= startup_terminal_programs());
    r
}

} // verus!
