//! Output-path derivation, the encoder argument list, and the
//! classification of an invocation's outcome.

use dashwatch::config::ServiceConfig;
use dashwatch::invoke::{derive_plan, invocation_outcome};
use dashwatch::job::JobError;
use dashwatch::paths::{extension_of, file_name_of, file_stem_of, join_paths, parent_of};

#[test]
fn path_parts_of_a_plain_file() {
    assert_eq!(file_name_of("/var/watch/videos/movie.mp4"), "movie.mp4");
    assert_eq!(file_stem_of("/var/watch/videos/movie.mp4"), Some("movie".to_string()));
    assert_eq!(extension_of("/var/watch/videos/movie.mp4"), Some("mp4".to_string()));
    assert_eq!(parent_of("/var/watch/videos/movie.mp4"), "/var/watch/videos");
}

#[test]
fn path_parts_of_edge_cases() {
    // several dots: the last one separates the extension
    assert_eq!(file_stem_of("/w/a.tar.gz"), Some("a.tar".to_string()));
    assert_eq!(extension_of("/w/a.tar.gz"), Some("gz".to_string()));
    // a hidden file has a stem and no extension
    assert_eq!(file_stem_of("/w/.hidden"), Some(".hidden".to_string()));
    assert_eq!(extension_of("/w/.hidden"), None);
    // no dot at all
    assert_eq!(file_stem_of("/w/plain"), Some("plain".to_string()));
    assert_eq!(extension_of("/w/plain"), None);
    // a trailing dot leaves an empty extension
    assert_eq!(file_stem_of("/w/dot."), Some("dot".to_string()));
    assert_eq!(extension_of("/w/dot."), Some(String::new()));
    // an empty file name has no stem
    assert_eq!(file_stem_of("/w/"), None);
    assert_eq!(file_stem_of(""), None);
    // entries of the root and bare names
    assert_eq!(parent_of("/movie.mp4"), "/");
    assert_eq!(parent_of("movie.mp4"), "");
    assert_eq!(join_paths("", "movie"), "movie");
    assert_eq!(join_paths("/", "movie"), "/movie");
    assert_eq!(join_paths("/w", "movie"), "/w/movie");
}

#[test]
fn plan_for_default_config() {
    let config = ServiceConfig::default();
    let plan = derive_plan("/var/watch/videos/movie.mp4", &config).unwrap();
    assert_eq!(plan.output_dir, "/var/watch/videos/movie");
    assert_eq!(plan.manifest_path, "/var/watch/videos/movie/manifest.mpd");
    assert_eq!(plan.init_seg_name, "init-stream$RepresentationID$.m4s");
    assert_eq!(plan.media_seg_name, "chunk-stream$RepresentationID$-$Number%05d$.m4s");
    let expected: Vec<&str> = vec![
        "-i",
        "/var/watch/videos/movie.mp4",
        "-c:v",
        "libx264",
        "-preset",
        "medium",
        "-crf",
        "23",
        "-c:a",
        "aac",
        "-b:a",
        "128k",
        "-f",
        "dash",
        "-seg_duration",
        "4",
        "-use_template",
        "1",
        "-use_timeline",
        "1",
        "-init_seg_name",
        "init-stream$RepresentationID$.m4s",
        "-media_seg_name",
        "chunk-stream$RepresentationID$-$Number%05d$.m4s",
        "/var/watch/videos/movie/manifest.mpd",
    ];
    assert_eq!(plan.args, expected);
}

#[test]
fn plan_output_ignores_the_extension() {
    let config = ServiceConfig::default();
    let a = derive_plan("/w/clip.mkv", &config).unwrap();
    let b = derive_plan("/w/clip.avi", &config).unwrap();
    assert_eq!(a.output_dir, "/w/clip");
    assert_eq!(a.output_dir, b.output_dir);
    assert_eq!(a.manifest_path, "/w/clip/manifest.mpd");
    assert_eq!(a.manifest_path, b.manifest_path);
}

#[test]
fn plan_takes_configured_values() {
    let mut config = ServiceConfig::default();
    config.ffmpeg_preset = "veryfast".to_string();
    config.ffmpeg_crf = 30;
    config.audio_bitrate = "96k".to_string();
    config.segment_duration = 6;
    let plan = derive_plan("/w/a.mp4", &config).unwrap();
    assert_eq!(plan.args[5], "veryfast");
    assert_eq!(plan.args[7], "30");
    assert_eq!(plan.args[11], "96k");
    assert_eq!(plan.args[15], "6");
}

#[test]
fn plan_fails_without_a_file_stem() {
    let config = ServiceConfig::default();
    let r = derive_plan("/var/watch/videos/", &config);
    assert!(matches!(r, Err(JobError::NoFileStem)));
}

#[test]
fn outcome_success_reports_the_manifest() {
    let r = invocation_outcome(None, None, true, String::new(), "/w/m/manifest.mpd".to_string());
    assert_eq!(r.unwrap(), "/w/m/manifest.mpd");
}

#[test]
fn outcome_directory_error_fails_first() {
    let r = invocation_outcome(
        Some("permission denied".to_string()),
        Some("unreachable".to_string()),
        true,
        String::new(),
        "/w/m/manifest.mpd".to_string(),
    );
    match r {
        Err(JobError::DirCreateFailed(m)) => assert_eq!(m, "permission denied"),
        _ => panic!("expected a directory-creation failure"),
    }
}

#[test]
fn outcome_spawn_error_fails() {
    let r = invocation_outcome(
        None,
        Some("No such file or directory".to_string()),
        false,
        String::new(),
        "/w/m/manifest.mpd".to_string(),
    );
    match r {
        Err(JobError::SpawnFailed(m)) => assert_eq!(m, "No such file or directory"),
        _ => panic!("expected a spawn failure"),
    }
}

#[test]
fn outcome_nonzero_exit_carries_stderr() {
    let r = invocation_outcome(
        None,
        None,
        false,
        "moov atom not found".to_string(),
        "/w/m/manifest.mpd".to_string(),
    );
    match r {
        Err(JobError::EncoderFailed(m)) => assert_eq!(m, "moov atom not found"),
        _ => panic!("expected an encoding failure"),
    }
}
