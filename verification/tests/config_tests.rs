use canvaswm::config::{
    config_paths, decoration_mode, is_server_side, search_config, search_step, CliOptions,
    ConfigFormat, CursorConfig, DecorationMode, KeyboardConfig, Probe, SearchMode, SearchStep,
};

#[test]
fn keyboard_defaults() {
    let k = KeyboardConfig::default();
    assert_eq!(k.layout, "us");
    assert_eq!(k.variant, "");
    assert_eq!(k.options, "");
    assert_eq!(k.model, "");
    assert_eq!(k.repeat_rate, 25);
    assert_eq!(k.repeat_delay, 200);
}

#[test]
fn cursor_defaults() {
    let c = CursorConfig::default();
    assert_eq!(c.theme, None);
    assert_eq!(c.size, 24);
}

#[test]
fn format_by_extension() {
    assert_eq!(ConfigFormat::for_path("/etc/x/config.toml"), Ok(ConfigFormat::Toml));
    assert_eq!(ConfigFormat::for_path("config.json"), Ok(ConfigFormat::Json));
    assert_eq!(ConfigFormat::for_path("a/config.yaml"), Ok(ConfigFormat::Yaml));
    assert_eq!(ConfigFormat::for_path("a/config.yml"), Ok(ConfigFormat::Yaml));
    assert_eq!(
        ConfigFormat::for_path("a/config.ini"),
        Err("Unknown config format: .ini".to_string())
    );
    assert_eq!(
        ConfigFormat::for_path("a/config"),
        Err("Unknown config format: .".to_string())
    );
}

#[test]
fn search_paths_in_order() {
    let p = config_paths(Some("/home/u/.config"), Some("/home/u"));
    assert_eq!(
        p,
        vec![
            "/home/u/.config/canvaswm/config.toml",
            "/home/u/.config/canvaswm/config.json",
            "/home/u/.config/canvaswm/config.yaml",
            "/home/u/.config/canvaswm/config.yml",
            "/home/u/.config/canvaswm/config.toml",
            "/home/u/.config/canvaswm/config.json",
            "/home/u/.config/canvaswm/config.yaml",
            "/home/u/.config/canvaswm/config.yml",
        ]
    );
    assert_eq!(config_paths(None, None), Vec::<String>::new());
    assert_eq!(config_paths(None, Some("/root/")).len(), 4);
    assert_eq!(config_paths(None, Some("/root/"))[0], "/root/.config/canvaswm/config.toml");
}

#[test]
fn loading_skips_broken_files() {
    let probes = vec![Probe::Missing, Probe::Failed, Probe::Parsed, Probe::Parsed];
    assert_eq!(search_config(SearchMode::Load, &probes), Some((2, SearchStep::Use)));
    assert_eq!(search_config(SearchMode::Load, &vec![Probe::Missing, Probe::Failed]), None);
}

#[test]
fn validation_stops_at_first_existing() {
    let probes = vec![Probe::Missing, Probe::Failed, Probe::Parsed];
    assert_eq!(search_config(SearchMode::Validate, &probes), Some((1, SearchStep::Fail)));
    assert_eq!(search_config(SearchMode::Validate, &vec![Probe::Missing]), None);
    assert_eq!(search_step(SearchMode::Validate, Probe::Parsed), SearchStep::Use);
    assert_eq!(search_step(SearchMode::Load, Probe::Failed), SearchStep::Next);
}

#[test]
fn decoration_modes() {
    assert!(is_server_side("server"));
    assert!(!is_server_side("client"));
    assert_eq!(decoration_mode("server", Some(DecorationMode::ClientSide)), DecorationMode::ServerSide);
    assert_eq!(decoration_mode("client", None), DecorationMode::ClientSide);
    assert_eq!(decoration_mode("client", Some(DecorationMode::ServerSide)), DecorationMode::ServerSide);
    assert_eq!(decoration_mode("none", Some(DecorationMode::ClientSide)), DecorationMode::ClientSide);
}

#[test]
fn command_line() {
    let args: Vec<String> = ["canvaswm", "--check-config"].iter().map(|s| s.to_string()).collect();
    let o = CliOptions::parse(&args);
    assert!(o.check_config);
    assert!(!o.use_drm);
    assert_eq!(o.command, None);

    let args: Vec<String> = ["canvaswm", "-c", "foot", "--drm"].iter().map(|s| s.to_string()).collect();
    let o = CliOptions::parse(&args);
    assert!(o.use_drm);
    assert_eq!(o.command.as_deref(), Some("foot"));

    let args: Vec<String> = ["canvaswm", "--command", "kitty"].iter().map(|s| s.to_string()).collect();
    assert_eq!(CliOptions::parse(&args).command.as_deref(), Some("kitty"));

    let args: Vec<String> = ["canvaswm", "--backend=drm", "-c"].iter().map(|s| s.to_string()).collect();
    let o = CliOptions::parse(&args);
    assert!(o.use_drm);
    assert_eq!(o.command, None);
}
