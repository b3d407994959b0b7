//! Configuration rules: defaults of the integer/string settings, where
//! config files are looked for, how their format is chosen, and how the
//! search over candidate files ends.

use vstd::prelude::*;
use vstd::string::StringExecFns;
use crate::text::{join_path, join_path_spec, str_eq, surround};

verus! {

/// Keyboard layout and repeat settings.
pub struct KeyboardConfig {
    pub layout: String,
    pub variant: String,
    pub options: String,
    pub model: String,
    /// Keys per second repeat rate.
    pub repeat_rate: i32,
    /// Milliseconds before repeat starts.
    pub repeat_delay: i32,
}

impl Default for KeyboardConfig {
    fn default() -> (r: Self)
        ensures
            r.layout@ == "us"@,
            r.variant@ == Seq::<char>::empty(),
            r.options@ == Seq::<char>::empty(),
            r.model@ == Seq::<char>::empty(),
            r.repeat_rate == 25,
            r.repeat_delay == 200,
    {
        KeyboardConfig {
            layout: String::from_str("us"),
            variant: String::new(),
            options: String::new(),
            model: String::new(),
            repeat_rate: 25,
            repeat_delay: 200,
        }
    }
}

/// Cursor theme and size.
pub struct CursorConfig {
    pub theme: Option<String>,
    pub size: u32,
}

impl Default for CursorConfig {
    fn default() -> (r: Self)
        ensures
            r.theme is None,
            r.size == 24,
    {
        CursorConfig { theme: None, size: 24 }
    }
}

/// The file formats a configuration can be written in.
#[derive(Debug, Clone, Copy, PartialEq, Eq, Structural)]
pub enum ConfigFormat {
    Toml,
    Json,
    Yaml,
}

/// The extension of the last component of a path: what std's
/// `Path::extension` returns for it.
pub uninterp spec fn path_extension(path: Seq<char>) -> Option<Seq<char>>;

/// `std::path::Path::extension`, read as UTF-8. The result is the text after
/// the final `.` of the file name; its exact rules for dot files, `..` and
/// trailing separators are left to std and only named here.
#[verifier::external_body]
fn extension_of(path: &str) -> (r: Option<String>)
    ensures
        r is None <==> path_extension(path@) is None,
        r matches Some(e) ==> path_extension(path@) == Some(e@),
{
    std::path::Path::new(path).extension().and_then(|e| e.to_str()).map(|e| e.to_string())
}

/// The format named by a file extension.
pub open spec fn format_for_extension(ext: Seq<char>) -> Option<ConfigFormat> {
    if ext == "toml"@ {
        Some(ConfigFormat::Toml)
    } else if ext == "json"@ {
        Some(ConfigFormat::Json)
    } else if ext == "yaml"@ || ext == "yml"@ {
        Some(ConfigFormat::Yaml)
    } else {
        None
    }
}

/// The extension of `path`, the empty text where it has none.
pub open spec fn extension_or_empty(path: Seq<char>) -> Seq<char> {
    match path_extension(path) {
        Some(e) => e,
        None => Seq::empty(),
    }
}

/// Reads a file extension as a config format.
pub fn format_from_extension(ext: &str) -> (r: Option<ConfigFormat>)
    ensures
        r == format_for_extension(ext@),
{
    proof {
        reveal_strlit("toml");
        reveal_strlit("json");
        reveal_strlit("yaml");
        reveal_strlit("yml");
        assert("toml"@.len() == 4 && "toml"@[0] == 't');
        assert("json"@.len() == 4 && "json"@[0] == 'j');
        assert("yaml"@.len() == 4 && "yaml"@[0] == 'y');
        assert("yml"@.len() == 3);
    }
    if str_eq(ext, "toml") {
        Some(ConfigFormat::Toml)
    } else if str_eq(ext, "json") {
        Some(ConfigFormat::Json)
    } else if str_eq(ext, "yaml") || str_eq(ext, "yml") {
        Some(ConfigFormat::Yaml)
    } else {
        None
    }
}

impl ConfigFormat {
    /// The format a config file is parsed in, chosen by its extension;
    /// an unknown or missing extension is refused with a message naming it.
    pub fn for_path(path: &str) -> (r: Result<ConfigFormat, String>)
        ensures
            format_for_extension(extension_or_empty(path@)) matches Some(f) ==> r == Ok::<
                ConfigFormat,
                String,
            >(f),
            format_for_extension(extension_or_empty(path@)) is None ==> (r matches Err(m) && m@
                == "Unknown config format: ."@ + extension_or_empty(path@)),
    {
        proof {
            reveal_strlit("");
            assert(""@ == Seq::<char>::empty());
        }
        let ext = match extension_of(path) {
            Some(e) => e,
            None => String::new(),
        };
        match format_from_extension(ext.as_str()) {
            Some(f) => Ok(f),
            None => Err(surround("Unknown config format: .", ext.as_str(), "")),
        }
    }
}

/// The file names tried in each config directory, in order.
pub open spec fn config_file_names() -> Seq<Seq<char>> {
    seq!["config.toml"@, "config.json"@, "config.yaml"@, "config.yml"@]
}

/// The candidate config files under one directory, in search order.
pub open spec fn candidates_in(dir: Seq<char>) -> Seq<Seq<char>> {
    config_file_names().map_values(|name: Seq<char>| join_path_spec(dir, name))
}

/// The directory `dir/rel`.
pub open spec fn subdir(dir: Seq<char>, rel: Seq<char>) -> Seq<char> {
    join_path_spec(dir, rel)
}

/// All candidate config files: those under `<config dir>/canvaswm`, then
/// those under `<home>/.config/canvaswm`, each only where the base is known.
pub open spec fn config_paths_spec(config_dir: Option<Seq<char>>, home: Option<Seq<char>>) -> Seq<
    Seq<char>,
> {
    let first = match config_dir {
        Some(d) => candidates_in(subdir(d, "canvaswm"@)),
        None => Seq::empty(),
    };
    let second = match home {
        Some(h) => candidates_in(subdir(subdir(h, ".config"@), "canvaswm"@)),
        None => Seq::empty(),
    };
    first + second
}

/// The config directory is searched first: when it is known, the first four
/// candidates are `<config dir>/canvaswm/config.{toml,json,yaml,yml}` in
/// that order, and the four under `<home>/.config/canvaswm` come only after
/// them, last in the list.
pub proof fn law_config_dir_searched_first(config_dir: Option<Seq<char>>, home: Option<Seq<char>>)
    ensures
        ({
            let r = config_paths_spec(config_dir, home);
            &&& r.len() == (if config_dir is Some { 4int } else { 0 }) + (if home is Some {
                4int
            } else {
                0
            })
            &&& config_dir matches Some(d) ==> {
                let base = join_path_spec(d, "canvaswm"@);
                &&& r[0] == join_path_spec(base, "config.toml"@)
                &&& r[1] == join_path_spec(base, "config.json"@)
                &&& r[2] == join_path_spec(base, "config.yaml"@)
                &&& r[3] == join_path_spec(base, "config.yml"@)
            }
            &&& home matches Some(h) ==> {
                let base = join_path_spec(join_path_spec(h, ".config"@), "canvaswm"@);
                let n = r.len() - 4;
                &&& r[n] == join_path_spec(base, "config.toml"@)
                &&& r[n + 1] == join_path_spec(base, "config.json"@)
                &&& r[n + 2] == join_path_spec(base, "config.yaml"@)
                &&& r[n + 3] == join_path_spec(base, "config.yml"@)
            }
        }),
{
}

fn push_candidates(paths: &mut Vec<String>, dir: &str)
    ensures
        final(paths)@.len() == old(paths)@.len() + 4,
        forall|i: int| 0 <= i < old(paths)@.len() ==> #[trigger] final(paths)@[i] == old(paths)@[i],
        forall|i: int|
            0 <= i < 4 ==> #[trigger] final(paths)@[old(paths)@.len() + i]@ == candidates_in(
                dir@,
            )[i],
{
    paths.push(join_path(dir, "config.toml"));
    paths.push(join_path(dir, "config.json"));
    paths.push(join_path(dir, "config.yaml"));
    paths.push(join_path(dir, "config.yml"));
}

/// Standard config file search paths, given the user's config directory and
/// home directory where they are known.
pub fn config_paths(config_dir: Option<&str>, home: Option<&str>) -> (r: Vec<String>)
    ensures
        r@.map_values(|s: String| s@) == config_paths_spec(
            match config_dir {
                Some(d) => Some(d@),
                None => None,
            },
            match home {
                Some(h) => Some(h@),
                None => None,
            },
        ),
{
    let mut paths: Vec<String> = Vec::new();
    if let Some(d) = config_dir {
        let base = join_path(d, "canvaswm");
        push_candidates(&mut paths, base.as_str());
        assert forall|j: int| 0 <= j < 4 implies (#[trigger] paths@[j])@ == candidates_in(
            subdir(d@, "canvaswm"@),
        )[j] by {
            assert(paths@[0 + j] == paths@[j]);
        }
    }
    let ghost p1 = paths@;
    if let Some(h) = home {
        let dot = join_path(h, ".config");
        let base = join_path(dot.as_str(), "canvaswm");
        push_candidates(&mut paths, base.as_str());
    }
    let ghost want = config_paths_spec(
        match config_dir {
            Some(d) => Some(d@),
            None => None,
        },
        match home {
            Some(h) => Some(h@),
            None => None,
        },
    );
    let ghost first: Seq<Seq<char>> = match config_dir {
        Some(d) => candidates_in(subdir(d@, "canvaswm"@)),
        None => Seq::empty(),
    };
    assert(p1.len() == first.len());
    assert forall|j: int| 0 <= j < p1.len() implies #[trigger] p1[j]@ == first[j] by {
        if let Some(d) = config_dir {
            assert(p1[j]@ == candidates_in(subdir(d@, "canvaswm"@))[j]);
        }
    }
    assert forall|j: int| 0 <= j < paths@.len() implies (#[trigger] paths@[j])@ == want[j] by {
        if j < p1.len() {
            assert(paths@[j] == p1[j]);
        } else {
            if let Some(h) = home {
                assert(paths@[p1.len() + (j - p1.len())]@ == candidates_in(
                    subdir(subdir(h@, ".config"@), "canvaswm"@),
                )[j - p1.len()]);
            }
        }
    }
    assert(paths@.map_values(|s: String| s@) =~= want);
    paths
}

/// What was found at one candidate path.
#[derive(Debug, Clone, Copy, PartialEq, Eq, Structural)]
pub enum Probe {
    /// No file there.
    Missing,
    /// A file that parsed as a configuration.
    Parsed,
    /// A file that could not be read or parsed.
    Failed,
}

/// Why the candidates are searched.
#[derive(Debug, Clone, Copy, PartialEq, Eq, Structural)]
pub enum SearchMode {
    /// Loading (or hot-reloading): a broken file is skipped.
    Load,
    /// Validating: the first existing file decides, broken or not.
    Validate,
}

/// What to do after probing one candidate.
#[derive(Debug, Clone, Copy, PartialEq, Eq, Structural)]
pub enum SearchStep {
    /// Try the next candidate.
    Next,
    /// Use this file's configuration.
    Use,
    /// Stop and report this file's error.
    Fail,
}

/// One step of the search over candidate config files.
pub open spec fn step_spec(mode: SearchMode, probe: Probe) -> SearchStep {
    match probe {
        Probe::Missing => SearchStep::Next,
        Probe::Parsed => SearchStep::Use,
        Probe::Failed => match mode {
            SearchMode::Load => SearchStep::Next,
            SearchMode::Validate => SearchStep::Fail,
        },
    }
}

/// Decides what to do after probing one candidate config file.
pub fn search_step(mode: SearchMode, probe: Probe) -> (r: SearchStep)
    ensures
        r == step_spec(mode, probe),
{
    match probe {
        Probe::Missing => SearchStep::Next,
        Probe::Parsed => SearchStep::Use,
        Probe::Failed => match mode {
            SearchMode::Load => SearchStep::Next,
            SearchMode::Validate => SearchStep::Fail,
        },
    }
}

/// The outcome of searching a list of candidates: the index where the
/// search stopped and the step taken there, or `None` when every candidate
/// said "next".
pub fn search_config(mode: SearchMode, probes: &Vec<Probe>) -> (r: Option<(usize, SearchStep)>)
    ensures
        r matches Some((i, s)) ==> {
            &&& i < probes@.len()
            &&& s == step_spec(mode, probes@[i as int])
            &&& s != SearchStep::Next
            &&& forall|k: int| 0 <= k < i ==> step_spec(mode, #[trigger] probes@[k]) == SearchStep::Next
        },
        r is None ==> forall|k: int|
            0 <= k < probes@.len() ==> step_spec(mode, #[trigger] probes@[k]) == SearchStep::Next,
{
    let n = probes.len();
    let mut i: usize = 0;
    while i < n
        invariant
            n == probes@.len(),
            i <= n,
            forall|k: int| 0 <= k < i ==> step_spec(mode, #[trigger] probes@[k]) == SearchStep::Next,
        decreases n - i,
    {
        let s = search_step(mode, probes[i]);
        match s {
            SearchStep::Next => {},
            _ => {
                return Some((i, s));
            },
        }
        i = i + 1;
    }
    None
}

/// A loading search never stops on a broken file: it uses the first file
/// that parsed, skipping missing and broken ones.
pub proof fn law_load_uses_first_parsed(probes: Seq<Probe>, i: int)
    requires
        0 <= i < probes.len(),
        probes[i] == Probe::Parsed,
        forall|k: int| 0 <= k < i ==> probes[k] != Probe::Parsed,
    ensures
        step_spec(SearchMode::Load, probes[i]) == SearchStep::Use,
        forall|k: int| 0 <= k < i ==> step_spec(SearchMode::Load, #[trigger] probes[k]) == SearchStep::Next,
{
}

/// Validation is decided by the first existing file: its parse result.
pub proof fn law_validate_follows_first_existing(probes: Seq<Probe>, i: int)
    requires
        0 <= i < probes.len(),
        probes[i] != Probe::Missing,
        forall|k: int| 0 <= k < i ==> probes[k] == Probe::Missing,
    ensures
        step_spec(SearchMode::Validate, probes[i]) == (if probes[i] == Probe::Parsed {
            SearchStep::Use
        } else {
            SearchStep::Fail
        }),
        forall|k: int|
            0 <= k < i ==> step_spec(SearchMode::Validate, #[trigger] probes[k]) == SearchStep::Next,
{
}

/// How a toplevel's decorations are drawn.
#[derive(Debug, Clone, Copy, PartialEq, Eq, Structural)]
pub enum DecorationMode {
    ClientSide,
    ServerSide,
}

/// Whether the configured decoration mode asks for server-side decorations.
pub fn is_server_side(config_mode: &str) -> (r: bool)
    ensures
        r == (config_mode@ == "server"@),
{
    str_eq(config_mode, "server")
}

/// The decoration mode to give a toplevel: server-side whenever the
/// configuration says "server", else what the client asked for, else
/// client-side.
pub fn decoration_mode(config_mode: &str, requested: Option<DecorationMode>) -> (r: DecorationMode)
    ensures
        config_mode@ == "server"@ ==> r == DecorationMode::ServerSide,
        config_mode@ != "server"@ ==> r == match requested {
            Some(m) => m,
            None => DecorationMode::ClientSide,
        },
{
    if is_server_side(config_mode) {
        DecorationMode::ServerSide
    } else {
        match requested {
            Some(m) => m,
            None => DecorationMode::ClientSide,
        }
    }
}

/// What the command line asks for.
pub struct CliOptions {
    /// `--check-config`: validate the configuration and exit.
    pub check_config: bool,
    /// `--backend=drm` or `--drm`: run on DRM/KMS instead of a window.
    pub use_drm: bool,
    /// `-c <program>` / `--command <program>` as the first arguments: the
    /// client to start instead of a terminal.
    pub command: Option<String>,
}

/// Whether some argument equals `flag`.
pub open spec fn has_arg(args: Seq<String>, flag: Seq<char>) -> bool {
    exists|i: int| 0 <= i < args.len() && (#[trigger] args[i])@ == flag
}

fn any_arg(args: &Vec<String>, flag: &str) -> (r: bool)
    ensures
        r == has_arg(args@, flag@),
{
    let n = args.len();
    let mut i: usize = 0;
    while i < n
        invariant
            n == args@.len(),
            i <= n,
            forall|k: int| 0 <= k < i ==> (#[trigger] args@[k])@ != flag@,
        decreases n - i,
    {
        if str_eq(args[i].as_str(), flag) {
            return true;
        }
        i = i + 1;
    }
    false
}

impl CliOptions {
    /// Reads the process arguments (program name first).
    pub fn parse(args: &Vec<String>) -> (r: CliOptions)
        ensures
            r.check_config == has_arg(args@, "--check-config"@),
            r.use_drm == (has_arg(args@, "--backend=drm"@) || has_arg(args@, "--drm"@)),
            (args@.len() >= 3 && (args@[1]@ == "-c"@ || args@[1]@ == "--command"@)) ==> (r.command matches Some(c) && c@ == args@[2]@),
            !(args@.len() >= 3 && (args@[1]@ == "-c"@ || args@[1]@ == "--command"@)) ==> r.command is None,
    {
        let check_config = any_arg(args, "--check-config");
        let use_drm = any_arg(args, "--backend=drm") || any_arg(args, "--drm");
        let command = if args.len() >= 3 && (str_eq(args[1].as_str(), "-c") || str_eq(
            args[1].as_str(),
            "--command",
        )) {
            Some(args[2].clone())
        } else {
            None
        };
        CliOptions { check_config, use_drm, command }
    }
}

} // verus!
