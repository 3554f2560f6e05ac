use std::path::PathBuf;

use mcraw_tui::encoder::{EncodeJob, EncodeStatus, OutputFormat};

#[test]
fn test_encode_job_new() {
    let job = EncodeJob::new(
        "test-1".to_string(),
        OutputFormat::DNG {
            output_path: PathBuf::from("/tmp/test.dng"),
        },
    );
    assert_eq!(job.id, "test-1");
    assert_eq!(job.status, EncodeStatus::Queued);
    assert_eq!(f64::from_bits(job.progress_bits), 0.0);
    assert_eq!(job.format_label(), "DNG");
}

#[test]
fn test_encode_job_status_checks() {
    let mut job = EncodeJob::new(
        "test-1".to_string(),
        OutputFormat::ProRes {
            output_path: PathBuf::from("/tmp/test.mov"),
        },
    );

    assert!(!job.is_complete());
    assert!(!job.is_failed());
    assert!(!job.is_running());

    job.status = EncodeStatus::Running;
    assert!(job.is_running());
    assert!(!job.is_complete());

    job.status = EncodeStatus::Completed;
    assert!(job.is_complete());
    assert!(!job.is_running());

    job.status = EncodeStatus::Failed("error".to_string());
    assert!(job.is_failed());
}

#[test]
fn test_format_labels() {
    let dng = OutputFormat::DNG {
        output_path: PathBuf::from("/tmp/dng"),
    };
    let prores = OutputFormat::ProRes {
        output_path: PathBuf::from("/tmp/prores"),
    };
    let h264 = OutputFormat::H264 {
        output_path: PathBuf::from("/tmp/h264"),
    };
    let hevc = OutputFormat::HEVC {
        output_path: PathBuf::from("/tmp/hevc"),
    };

    assert_eq!(
        EncodeJob {
            id: "1".to_string(),
            format: dng,
            status: EncodeStatus::Queued,
            progress_bits: 0.0f64.to_bits(),
            error: None,
        }
        .format_label(),
        "DNG"
    );
    assert_eq!(
        EncodeJob {
            id: "2".to_string(),
            format: prores,
            status: EncodeStatus::Queued,
            progress_bits: 0.0f64.to_bits(),
            error: None,
        }
        .format_label(),
        "ProRes"
    );
    assert_eq!(
        EncodeJob {
            id: "3".to_string(),
            format: h264,
            status: EncodeStatus::Queued,
            progress_bits: 0.0f64.to_bits(),
            error: None,
        }
        .format_label(),
        "H.264"
    );
    assert_eq!(
        EncodeJob {
            id: "4".to_string(),
            format: hevc,
            status: EncodeStatus::Queued,
            progress_bits: 0.0f64.to_bits(),
            error: None,
        }
        .format_label(),
        "HEVC"
    );
}

#[test]
fn encode_job_names_its_output() {
    let job = EncodeJob::new(
        "x".to_string(),
        OutputFormat::HEVC {
            output_path: PathBuf::from("/out/clip.mp4"),
        },
    );
    assert_eq!(job.output_path(), Some(&PathBuf::from("/out/clip.mp4")));
    assert!(job.error.is_none());
}
