//! Encode jobs: their output formats and states, the encoder front end, and
//! the choice of HEVC encoder from what FFmpeg offers.

use vstd::prelude::*;
use crate::text::{contains_chars, owned, str_contains};

verus! {

broadcast use vstd::string::group_string_axioms;

#[derive(Debug)]
pub enum OutputFormat {
    DNG { output_path: std::path::PathBuf },
    ProRes { output_path: std::path::PathBuf },
    H264 { output_path: std::path::PathBuf },
    HEVC { output_path: std::path::PathBuf },
}

#[derive(Debug, Clone, PartialEq, Eq)]
pub enum EncodeStatus {
    Queued,
    Running,
    Completed,
    Failed(String),
}

impl OutputFormat {
    /// The file the job writes.
    pub open spec fn spec_path(self) -> std::path::PathBuf {
        match self {
            OutputFormat::DNG { output_path } => output_path,
            OutputFormat::ProRes { output_path } => output_path,
            OutputFormat::H264 { output_path } => output_path,
            OutputFormat::HEVC { output_path } => output_path,
        }
    }

    pub open spec fn spec_label(self) -> Seq<char> {
        match self {
            OutputFormat::DNG { .. } => "DNG"@,
            OutputFormat::ProRes { .. } => "ProRes"@,
            OutputFormat::H264 { .. } => "H.264"@,
            OutputFormat::HEVC { .. } => "HEVC"@,
        }
    }
}

/// One encode job. The fraction done is kept as the bit pattern of an
/// `f64` in `progress_bits`.
#[derive(Debug)]
pub struct EncodeJob {
    pub id: String,
    pub format: OutputFormat,
    pub status: EncodeStatus,
    pub progress_bits: u64,
    pub error: Option<String>,
}

impl EncodeJob {
    /// A queued job with nothing done and no error.
    pub fn new(id: String, format: OutputFormat) -> (r: Self)
        ensures
            r.id == id,
            r.format == format,
            r.status == EncodeStatus::Queued,
            r.progress_bits == 0,
            r.error is None,
    {
        EncodeJob { id, format, status: EncodeStatus::Queued, progress_bits: 0, error: None }
    }

    pub fn is_complete(&self) -> (r: bool)
        ensures
            r == (self.status is Completed),
    {
        matches!(self.status, EncodeStatus::Completed)
    }

    pub fn is_failed(&self) -> (r: bool)
        ensures
            r == (self.status is Failed),
    {
        matches!(self.status, EncodeStatus::Failed(_))
    }

    pub fn is_running(&self) -> (r: bool)
        ensures
            r == (self.status is Running),
    {
        matches!(self.status, EncodeStatus::Running)
    }

    pub fn format_label(&self) -> (r: &'static str)
        ensures
            r@ == self.format.spec_label(),
    {
        match &self.format {
            OutputFormat::DNG { .. } => "DNG",
            OutputFormat::ProRes { .. } => "ProRes",
            OutputFormat::H264 { .. } => "H.264",
            OutputFormat::HEVC { .. } => "HEVC",
        }
    }

    /// Every format names its output file.
    pub fn output_path(&self) -> (r: Option<&std::path::PathBuf>)
        ensures
            r matches Some(p) && *p == self.format.spec_path(),
    {
        match &self.format {
            OutputFormat::DNG { output_path } => Some(output_path),
            OutputFormat::ProRes { output_path } => Some(output_path),
            OutputFormat::H264 { output_path } => Some(output_path),
            OutputFormat::HEVC { output_path } => Some(output_path),
        }
    }
}

pub struct Encoder;

impl Encoder {
    pub fn new() -> (r: Self) {
        Encoder {}
    }

    /// The formats jobs can be written in.
    pub fn list_supported_formats(&self) -> (r: Vec<&'static str>)
        ensures
            r@.map_values(|s: &str| s@) == seq!["DNG"@, "ProRes"@, "H.264"@, "HEVC"@],
    {
        let r = vec!["DNG", "ProRes", "H.264", "HEVC"];
        assert(r@.map_values(|s: &str| s@) =~= seq!["DNG"@, "ProRes"@, "H.264"@, "HEVC"@]);
        r
    }
}

impl Default for Encoder {
    fn default() -> (r: Self) {
        Self::new()
    }
}

/// Runtime-detected hardware capabilities for video encoding.
pub struct HardwareCaps {
    /// Best available HEVC encoder name
    pub best_hevc_encoder: String,
    /// True if `best_hevc_encoder` is a hardware accelerator
    pub hevc_is_hw: bool,
}

/// The HEVC encoder picked from the text of `ffmpeg -encoders`: the first of
/// `hevc_nvenc`, `hevc_amf`, `hevc_qsv`, `hevc_videotoolbox` it mentions,
/// else the software `libx265` (also when FFmpeg could not be run).
pub open spec fn spec_best_hevc(listing: Option<Seq<char>>) -> (Seq<char>, bool) {
    match listing {
        None => ("libx265"@, false),
        Some(t) => if contains_chars(t, "hevc_nvenc"@) {
            ("hevc_nvenc"@, true)
        } else if contains_chars(t, "hevc_amf"@) {
            ("hevc_amf"@, true)
        } else if contains_chars(t, "hevc_qsv"@) {
            ("hevc_qsv"@, true)
        } else if contains_chars(t, "hevc_videotoolbox"@) {
            ("hevc_videotoolbox"@, true)
        } else {
            ("libx265"@, false)
        },
    }
}

/// Capabilities from the encoder listing FFmpeg printed, if it ran.
pub fn caps_from_encoder_listing(listing: Option<&str>) -> (r: HardwareCaps)
    ensures
        (r.best_hevc_encoder@, r.hevc_is_hw) == spec_best_hevc(match listing {
            Some(t) => Some(t@),
            None => None,
        }),
{
    match listing {
        None => HardwareCaps { best_hevc_encoder: owned("libx265"), hevc_is_hw: false },
        Some(t) => {
            if str_contains(t, "hevc_nvenc") {
                HardwareCaps { best_hevc_encoder: owned("hevc_nvenc"), hevc_is_hw: true }
            } else if str_contains(t, "hevc_amf") {
                HardwareCaps { best_hevc_encoder: owned("hevc_amf"), hevc_is_hw: true }
            } else if str_contains(t, "hevc_qsv") {
                HardwareCaps { best_hevc_encoder: owned("hevc_qsv"), hevc_is_hw: true }
            } else if str_contains(t, "hevc_videotoolbox") {
                HardwareCaps { best_hevc_encoder: owned("hevc_videotoolbox"), hevc_is_hw: true }
            } else {
                HardwareCaps { best_hevc_encoder: owned("libx265"), hevc_is_hw: false }
            }
        },
    }
}

/// `std::io::Error`, carried through unchanged.
#[verifier::external_type_specification]
#[verifier::external_body]
pub struct ExIoError(std::io::Error);

/// Errors of reading and decoding MCRAW files.
#[derive(Debug)]
pub enum McrawError {
    FileError(String),
    DecodeError(String),
    FormatError(String),
    ParseError(String),
    EncoderError(String),
    IoError(std::io::Error),
    DecoderNotAvailable,
}

/// The text of an I/O error (its `Display`), as the operating system
/// words it; no clause states it.
#[verifier::external_body]
fn io_error_text(e: &std::io::Error) -> (r: String) {
    e.to_string()
}

/// The message of an error that carries text, without the I/O case.
pub open spec fn spec_error_message(e: McrawError) -> Seq<char> {
    match e {
        McrawError::FileError(s) => "File error: "@ + s@,
        McrawError::DecodeError(s) => "Decode error: "@ + s@,
        McrawError::FormatError(s) => "Invalid MCRAW format: "@ + s@,
        McrawError::ParseError(s) => "Parse error: "@ + s@,
        McrawError::EncoderError(s) => "Encoder error: "@ + s@,
        McrawError::IoError(_) => "IO error: "@,
        McrawError::DecoderNotAvailable => "Decoder not available"@,
    }
}

impl McrawError {
    /// The error's message; for an I/O error, `IO error: ` and the system's
    /// text.
    pub fn message(&self) -> (r: String)
        ensures
            !(self is IoError) ==> r@ == spec_error_message(*self),
            self is IoError ==> crate::text::starts_with(r@, "IO error: "@),
    {
        let (prefix, detail): (&str, Option<&String>) = match self {
            McrawError::FileError(s) => ("File error: ", Some(s)),
            McrawError::DecodeError(s) => ("Decode error: ", Some(s)),
            McrawError::FormatError(s) => ("Invalid MCRAW format: ", Some(s)),
            McrawError::ParseError(s) => ("Parse error: ", Some(s)),
            McrawError::EncoderError(s) => ("Encoder error: ", Some(s)),
            McrawError::IoError(_) => ("IO error: ", None),
            McrawError::DecoderNotAvailable => ("Decoder not available", None),
        };
        let mut r = owned(prefix);
        match detail {
            Some(s) => crate::text::push_str(&mut r, s.as_str()),
            None => {},
        }
        match self {
            McrawError::IoError(e) => {
                let t = io_error_text(e);
                let ghost before = r@;
                crate::text::push_str(&mut r, t.as_str());
                assert(r@.take(before.len() as int) =~= before);
            },
            _ => {},
        }
        r
    }
}

} // verus!
