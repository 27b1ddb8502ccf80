//! Configuration defaults and the parsing of raw environment values.

use dashwatch::chars::u32_to_string;
use dashwatch::config::{config_from_env_values, parse_extensions, parse_u32_or, trim, ServiceConfig};

#[test]
fn default_config_values() {
    let c = ServiceConfig::default();
    assert_eq!(c.watch_folder, "/var/watch/videos");
    assert_eq!(c.video_extensions, vec!["mp4", "avi", "mkv", "mov", "wmv", "flv"]);
    assert_eq!(c.ffmpeg_path, "ffmpeg");
    assert_eq!(c.segment_duration, 4);
    assert_eq!(c.ffmpeg_preset, "medium");
    assert_eq!(c.ffmpeg_crf, 23);
    assert_eq!(c.audio_bitrate, "128k");
}

#[test]
fn unset_environment_gives_defaults() {
    let c = config_from_env_values(None, None, None, None, None, None, None);
    assert_eq!(c.watch_folder, "/var/watch/videos");
    assert_eq!(c.video_extensions, vec!["mp4", "avi", "mkv", "mov", "wmv", "flv"]);
    assert_eq!(c.ffmpeg_path, "ffmpeg");
    assert_eq!(c.segment_duration, 4);
    assert_eq!(c.ffmpeg_preset, "medium");
    assert_eq!(c.ffmpeg_crf, 23);
    assert_eq!(c.audio_bitrate, "128k");
}

#[test]
fn set_environment_is_taken_over() {
    let c = config_from_env_values(
        Some("/data/in".to_string()),
        Some("mov".to_string()),
        Some("/usr/bin/ffmpeg".to_string()),
        Some("10".to_string()),
        Some("fast".to_string()),
        Some("18".to_string()),
        Some("192k".to_string()),
    );
    assert_eq!(c.watch_folder, "/data/in");
    assert_eq!(c.video_extensions, vec!["mov"]);
    assert_eq!(c.ffmpeg_path, "/usr/bin/ffmpeg");
    assert_eq!(c.segment_duration, 10);
    assert_eq!(c.ffmpeg_preset, "fast");
    assert_eq!(c.ffmpeg_crf, 18);
    assert_eq!(c.audio_bitrate, "192k");
}

#[test]
fn malformed_numbers_fall_back_silently() {
    let c = config_from_env_values(
        None,
        None,
        None,
        Some("abc".to_string()),
        None,
        Some("".to_string()),
        None,
    );
    assert_eq!(c.segment_duration, 4);
    assert_eq!(c.ffmpeg_crf, 23);
}

#[test]
fn parse_u32_accepts_plain_and_signed_digits() {
    assert_eq!(parse_u32_or("0", 9), 0);
    assert_eq!(parse_u32_or("23", 9), 23);
    assert_eq!(parse_u32_or("+7", 9), 7);
    assert_eq!(parse_u32_or("007", 9), 7);
    assert_eq!(parse_u32_or("4294967295", 9), 4294967295);
}

#[test]
fn parse_u32_rejects_bad_input() {
    assert_eq!(parse_u32_or("", 9), 9);
    assert_eq!(parse_u32_or("+", 9), 9);
    assert_eq!(parse_u32_or("-4", 9), 9);
    assert_eq!(parse_u32_or("4 ", 9), 9);
    assert_eq!(parse_u32_or("4a", 9), 9);
    assert_eq!(parse_u32_or("4294967296", 9), 9);
    assert_eq!(parse_u32_or("99999999999999999999", 9), 9);
}

#[test]
fn extensions_are_split_and_trimmed() {
    let v = parse_extensions(" mov , mkv,mp4");
    assert_eq!(v, vec!["mov", "mkv", "mp4"]);
}

#[test]
fn empty_pieces_survive_the_split() {
    let v = parse_extensions("a,,b,");
    assert_eq!(v, vec!["a", "", "b", ""]);
    let w = parse_extensions("");
    assert_eq!(w, vec![""]);
}

#[test]
fn trim_strips_ascii_whitespace_only_at_the_ends() {
    assert_eq!(trim("  mp4\t"), "mp4");
    assert_eq!(trim("\r\nm p4\n"), "m p4");
    assert_eq!(trim(""), "");
    assert_eq!(trim(" \t "), "");
}

#[test]
fn decimal_rendering_is_exact() {
    assert_eq!(u32_to_string(0), "0");
    assert_eq!(u32_to_string(4), "4");
    assert_eq!(u32_to_string(23), "23");
    assert_eq!(u32_to_string(100), "100");
    assert_eq!(u32_to_string(4294967295), "4294967295");
}

#[test]
fn config_snapshot_clones_equal() {
    let c = ServiceConfig::default();
    let d = c.clone();
    assert_eq!(c.watch_folder, d.watch_folder);
    assert_eq!(c.video_extensions, d.video_extensions);
    assert_eq!(c.ffmpeg_path, d.ffmpeg_path);
    assert_eq!(c.segment_duration, d.segment_duration);
    assert_eq!(c.ffmpeg_preset, d.ffmpeg_preset);
    assert_eq!(c.ffmpeg_crf, d.ffmpeg_crf);
    assert_eq!(c.audio_bitrate, d.audio_bitrate);
}
