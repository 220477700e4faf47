use kizubin::cliutil::{completed_title, completed_title_with, done_marker};
use kizubin::cliutil::{progress_frame, progress_title};

#[test]
fn progress_title_first_tick() {
    assert_eq!(progress_title("build", 0), "⠋ build.");
}

#[test]
fn progress_title_cycles_glyphs_and_dots() {
    assert_eq!(progress_title("build", 1), "⠙ build..");
    assert_eq!(progress_title("build", 2), "⠹ build...");
    assert_eq!(progress_title("build", 3), "⠸ build.");
    assert_eq!(progress_title("build", 9), "⠏ build.");
    assert_eq!(progress_title("build", 10), "⠋ build..");
    assert_eq!(progress_title("build", 11), "⠙ build...");
}

#[test]
fn progress_title_same_class_same_text() {
    assert_eq!(progress_title("x", 4), progress_title("x", 34));
    assert_ne!(progress_title("x", 4), progress_title("x", 14));
}

#[test]
fn completed_title_with_plain_marker() {
    assert_eq!(completed_title_with("[OK]", "build"), "[OK] build\n");
}

#[test]
fn completed_title_holds_marker_and_label() {
    let line = completed_title("build");
    assert!(line.contains("[OK]"));
    assert!(line.ends_with(" build\n"));
}

#[test]
fn progress_frame_returns_to_first_column() {
    assert_eq!(progress_frame("build", 0), "\u{1b}[1G\u{1b}[2K⠋ build.");
}

#[test]
fn done_marker_is_styled_text() {
    let marker = done_marker();
    assert!(marker.contains("[OK]"));
    assert_ne!(marker, "[OK]");
    assert!(marker.starts_with('\u{1b}'));
}
