//! Command-line arguments as parsed, and how they resolve to one command.

use vstd::prelude::*;
use crate::text::{lowercase, owned, push_str, str_eq, to_lowercase};

verus! {

#[derive(Debug)]
pub enum CliCommands {
    /// Open a .mcraw file in the TUI
    Open { file: Option<String> },
    /// Show file metadata and exit
    Info { file: Option<String> },
    /// Export a .mcraw file to another format
    Export { file: Option<String>, format: String, output: String },
}

/// The parsed command line.
#[derive(Debug)]
pub struct Cli {
    /// Path to the .mcraw file to open (backward compatibility)
    pub file: Option<String>,
    /// CLI subcommand
    pub command: Option<CliCommands>,
    /// Number of frames to load (default: all)
    pub frames: Option<usize>,
    /// Enable verbose logging
    pub verbose: bool,
    /// Output directory for extracted files
    pub output: Option<String>,
}

pub enum ResolvedCli {
    Command(CliCommands),
    NoFile,
}

/// `cmd` with the top-level file filled in where it names none.
pub open spec fn spec_with_top_level(cmd: CliCommands, top: Option<String>) -> CliCommands {
    match cmd {
        CliCommands::Open { file } => CliCommands::Open { file: if file is Some { file } else { top } },
        CliCommands::Info { file } => CliCommands::Info { file: if file is Some { file } else { top } },
        CliCommands::Export { file, format, output } => CliCommands::Export {
            file: if file is Some {
                file
            } else {
                top
            },
            format,
            output,
        },
    }
}

/// The command a command line resolves to: the subcommand, taking the
/// top-level `--file` when it names no file itself; without a subcommand,
/// `open` of the top-level file, if one is given.
pub open spec fn spec_resolve(cli: Cli) -> ResolvedCli {
    match cli.command {
        Some(cmd) => ResolvedCli::Command(spec_with_top_level(cmd, cli.file)),
        None => match cli.file {
            Some(f) => ResolvedCli::Command(CliCommands::Open { file: Some(f) }),
            None => ResolvedCli::NoFile,
        },
    }
}

/// Export formats accepted on the command line (compared lower-cased).
pub open spec fn is_export_format(lower: Seq<char>) -> bool {
    lower == "cdng"@ || lower == "dng"@ || lower == "prores"@ || lower == "h264"@ || lower == "hevc"@
}

/// The message for an export format that is not accepted.
pub open spec fn export_format_error(format: Seq<char>) -> Seq<char> {
    "Invalid export format '"@ + format + "'. Valid formats: cdng, dng, prores, h264, hevc"@
}

impl Cli {
    /// Resolve CLI arguments: subcommand -f takes precedence, falls back to
    /// top-level -f.
    pub fn resolve(self) -> (r: ResolvedCli)
        ensures
            r == spec_resolve(self),
    {
        match self.command {
            Some(cmd) => ResolvedCli::Command(cmd.resolve_with_top_level(self.file)),
            None => match self.file {
                Some(file) => ResolvedCli::Command(CliCommands::Open { file: Some(file) }),
                None => ResolvedCli::NoFile,
            },
        }
    }

    /// Checks an export format given with its lower-cased form.
    pub fn check_export_format(format: &str, lower: &str) -> (r: Result<(), String>)
        ensures
            r is Ok <==> is_export_format(lower@),
            r is Err ==> r->Err_0@ == export_format_error(format@),
    {
        if str_eq(lower, "cdng") || str_eq(lower, "dng") || str_eq(lower, "prores") || str_eq(
            lower,
            "h264",
        ) || str_eq(lower, "hevc") {
            Ok(())
        } else {
            let mut msg = owned("Invalid export format '");
            push_str(&mut msg, format);
            push_str(&mut msg, "'. Valid formats: cdng, dng, prores, h264, hevc");
            Err(msg)
        }
    }

    /// Validate export format: cdng, dng, prores, h264 or hevc, in any case.
    pub fn validate_export_format(format: &str) -> (r: Result<(), String>)
        ensures
            r is Ok <==> is_export_format(lowercase(format@)),
            r is Err ==> r->Err_0@ == export_format_error(format@),
    {
        let lower = to_lowercase(format);
        Self::check_export_format(format, lower.as_str())
    }
}

impl CliCommands {
    /// Merge top-level -f into subcommand if subcommand doesn't have its own
    /// -f.
    fn resolve_with_top_level(self, top_level_file: Option<String>) -> (r: Self)
        ensures
            r == spec_with_top_level(self, top_level_file),
    {
        match self {
            CliCommands::Open { file } => CliCommands::Open {
                file: match file {
                    Some(f) => Some(f),
                    None => top_level_file,
                },
            },
            CliCommands::Info { file } => CliCommands::Info {
                file: match file {
                    Some(f) => Some(f),
                    None => top_level_file,
                },
            },
            CliCommands::Export { file, format, output } => CliCommands::Export {
                file: match file {
                    Some(f) => Some(f),
                    None => top_level_file,
                },
                format,
                output,
            },
        }
    }
}


/// The output kinds the command line's export writes a job for.
#[derive(Debug, Clone, Copy, PartialEq, Eq, Structural)]
pub enum ExportKind {
    Dng,
    ProRes,
    H264,
    Hevc,
}

pub open spec fn spec_export_kind(lower: Seq<char>) -> Option<ExportKind> {
    if lower == "dng"@ {
        Some(ExportKind::Dng)
    } else if lower == "prores"@ {
        Some(ExportKind::ProRes)
    } else if lower == "h264"@ {
        Some(ExportKind::H264)
    } else if lower == "hevc"@ {
        Some(ExportKind::Hevc)
    } else {
        None
    }
}

/// The job kind for an export format, in any case: dng, prores, h264 or
/// hevc; `cdng` passes validation but names no job kind.
pub fn export_kind(format: &str) -> (r: Option<ExportKind>)
    ensures
        r == spec_export_kind(lowercase(format@)),
{
    let lower = to_lowercase(format);
    let l = lower.as_str();
    if str_eq(l, "dng") {
        Some(ExportKind::Dng)
    } else if str_eq(l, "prores") {
        Some(ExportKind::ProRes)
    } else if str_eq(l, "h264") {
        Some(ExportKind::H264)
    } else if str_eq(l, "hevc") {
        Some(ExportKind::Hevc)
    } else {
        None
    }
}

} // verus!
