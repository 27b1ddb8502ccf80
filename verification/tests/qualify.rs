//! Event qualification: which kinds and which extensions lead to a job.

use dashwatch::config::ServiceConfig;
use dashwatch::qualify::{is_video_file, kind_accepted, qualifying_paths, EventKind};

fn default_exts() -> Vec<String> {
    ServiceConfig::default().video_extensions
}

#[test]
fn default_extension_qualifies() {
    let exts = default_exts();
    assert!(is_video_file("/var/watch/videos/movie.mp4", &exts));
    assert!(is_video_file("/var/watch/videos/clip.mkv", &exts));
    assert!(is_video_file("relative.avi", &exts));
}

#[test]
fn wrong_extension_does_not_qualify() {
    let exts = default_exts();
    assert!(!is_video_file("/var/watch/videos/notes.txt", &exts));
    assert!(!is_video_file("/var/watch/videos/archive.tar.gz", &exts));
}

#[test]
fn missing_extension_does_not_qualify() {
    let exts = default_exts();
    assert!(!is_video_file("/var/watch/videos/README", &exts));
    assert!(!is_video_file("/var/watch/videos/", &exts));
    assert!(!is_video_file("", &exts));
}

#[test]
fn hidden_file_has_no_extension() {
    let exts = default_exts();
    // the leading dot starts the name, it does not separate an extension
    assert!(!is_video_file("/var/watch/videos/.mp4", &exts));
}

#[test]
fn upper_case_extension_qualifies() {
    let exts = vec!["mov".to_string()];
    assert!(is_video_file("/var/watch/videos/CLIP.MOV", &exts));
    assert!(is_video_file("/var/watch/videos/clip.MoV", &exts));
}

#[test]
fn upper_case_allow_list_entry_qualifies() {
    let exts = vec!["MP4".to_string()];
    assert!(is_video_file("/var/watch/videos/movie.mp4", &exts));
}

#[test]
fn only_create_and_modify_are_accepted() {
    assert!(kind_accepted(EventKind::Create));
    assert!(kind_accepted(EventKind::Modify));
    assert!(!kind_accepted(EventKind::Remove));
    assert!(!kind_accepted(EventKind::Other));
}

#[test]
fn qualifying_paths_filters_in_order() {
    let exts = default_exts();
    let paths = vec![
        "/w/a.mp4".to_string(),
        "/w/notes.txt".to_string(),
        "/w/b.mkv".to_string(),
    ];
    let q = qualifying_paths(EventKind::Create, &paths, &exts);
    assert_eq!(q.len(), 2);
    assert_eq!(q[0], "/w/a.mp4");
    assert_eq!(q[1], "/w/b.mkv");
}

#[test]
fn remove_event_qualifies_nothing() {
    let exts = default_exts();
    let paths = vec!["/w/a.mp4".to_string()];
    let q = qualifying_paths(EventKind::Remove, &paths, &exts);
    assert!(q.is_empty());
}
