use mcraw_tui::cli::{Cli, CliCommands, ResolvedCli};
use mcraw_tui::terminal::{detect_from, forced_protocol, protocol_name, TerminalEnv, TerminalProtocol};

fn cli(file: Option<&str>, command: Option<CliCommands>) -> Cli {
    Cli {
        file: file.map(|s| s.to_string()),
        command,
        frames: None,
        verbose: false,
        output: None,
    }
}

#[test]
fn resolve_prefers_subcommand_file() {
    let c = cli(Some("top.mcraw"), Some(CliCommands::Info { file: Some("sub.mcraw".to_string()) }));
    match c.resolve() {
        ResolvedCli::Command(CliCommands::Info { file }) => assert_eq!(file.as_deref(), Some("sub.mcraw")),
        _ => panic!("expected info"),
    }
}

#[test]
fn resolve_falls_back_to_top_level_file() {
    let c = cli(
        Some("top.mcraw"),
        Some(CliCommands::Export { file: None, format: "prores".to_string(), output: "out".to_string() }),
    );
    match c.resolve() {
        ResolvedCli::Command(CliCommands::Export { file, format, output }) => {
            assert_eq!(file.as_deref(), Some("top.mcraw"));
            assert_eq!(format, "prores");
            assert_eq!(output, "out");
        }
        _ => panic!("expected export"),
    }
}

#[test]
fn resolve_without_subcommand() {
    match cli(Some("a.mcraw"), None).resolve() {
        ResolvedCli::Command(CliCommands::Open { file }) => assert_eq!(file.as_deref(), Some("a.mcraw")),
        _ => panic!("expected open"),
    }
    assert!(matches!(cli(None, None).resolve(), ResolvedCli::NoFile));
    match cli(None, Some(CliCommands::Open { file: None })).resolve() {
        ResolvedCli::Command(CliCommands::Open { file }) => assert!(file.is_none()),
        _ => panic!("expected open"),
    }
}

#[test]
fn export_format_validation() {
    assert!(Cli::validate_export_format("prores").is_ok());
    assert!(Cli::validate_export_format("HEVC").is_ok());
    assert!(Cli::validate_export_format("cDnG").is_ok());
    assert_eq!(
        Cli::validate_export_format("avi"),
        Err("Invalid export format 'avi'. Valid formats: cdng, dng, prores, h264, hevc".to_string())
    );
}

fn env(term: &str, term_program: &str) -> TerminalEnv {
    TerminalEnv {
        force_protocol: None,
        term: term.to_string(),
        term_program: term_program.to_string(),
        kitty_window_id: false,
        kitty_pid: false,
        wezterm_executable: false,
        konsole_version: false,
        warp_is_local_shell_session: false,
        msystem: false,
        mingw_prefix: false,
        wt_session: false,
        conemu_pid: false,
        conemu_hwnd: false,
    }
}

#[test]
fn terminal_detection_order() {
    assert_eq!(detect_from(&env("xterm-kitty", "")), TerminalProtocol::Kitty);
    assert_eq!(detect_from(&env("xterm-256color", "Ghostty")), TerminalProtocol::Kitty);
    assert_eq!(detect_from(&env("foot-extra", "")), TerminalProtocol::Sixel);
    assert_eq!(detect_from(&env("xterm-sixel-ish", "")), TerminalProtocol::Sixel);
    assert_eq!(detect_from(&env("xterm-256color", "")), TerminalProtocol::TextFallback);
    let mut e = env("xterm-256color", "");
    e.msystem = true;
    assert_eq!(detect_from(&e), TerminalProtocol::Sixel);
    let mut e = env("foot", "vscode");
    e.wt_session = true;
    assert_eq!(detect_from(&e), TerminalProtocol::Kitty);
}

#[test]
fn terminal_override_wins_when_recognised() {
    let mut e = env("xterm-kitty", "");
    e.force_protocol = Some("SIXEL".to_string());
    assert_eq!(detect_from(&e), TerminalProtocol::Sixel);
    e.force_protocol = Some("bogus".to_string());
    assert_eq!(detect_from(&e), TerminalProtocol::Kitty);
    assert_eq!(forced_protocol("text"), Some(TerminalProtocol::TextFallback));
    assert_eq!(forced_protocol("Text"), None);
}

#[test]
fn protocol_names() {
    assert_eq!(protocol_name(TerminalProtocol::Sixel), "sixel");
    assert_eq!(protocol_name(TerminalProtocol::Kitty), "kitty");
    assert_eq!(protocol_name(TerminalProtocol::TextFallback), "text-fallback");
}

#[test]
fn export_kinds_by_format_name() {
    use_kinds();
}

fn use_kinds() {
    assert_eq!(mcraw_tui::cli::export_kind("DNG"), Some(mcraw_tui::cli::ExportKind::Dng));
    assert_eq!(mcraw_tui::cli::export_kind("ProRes"), Some(mcraw_tui::cli::ExportKind::ProRes));
    assert_eq!(mcraw_tui::cli::export_kind("h264"), Some(mcraw_tui::cli::ExportKind::H264));
    assert_eq!(mcraw_tui::cli::export_kind("HEVC"), Some(mcraw_tui::cli::ExportKind::Hevc));
    assert_eq!(mcraw_tui::cli::export_kind("cdng"), None);
}
