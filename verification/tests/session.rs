use kizubin::cliutil::{chunk_width, frame, read_step, split_line_to_chunks};
use kizubin::cliutil::{Delivery, MultiStep, Reading};

fn owned(parts: &[&str]) -> Vec<String> {
    parts.iter().map(|p| p.to_string()).collect()
}

fn numbered(from: usize, to: usize) -> Vec<String> {
    (from..=to).map(|i| format!("line {}", i)).collect()
}

#[test]
fn new_session_is_idle_and_empty() {
    let session = MultiStep::new("build", 10);
    assert!(!session.is_running());
    assert_eq!(session.rows(), 10);
    assert_eq!(session.output(), "");
    assert!(session.window().is_empty());
}

#[test]
fn output_before_show_is_empty() {
    let mut session = MultiStep::new("build", 3);
    session.send("early".to_string());
    assert_eq!(session.output(), "");
    assert!(session.window().is_empty());
}

#[test]
fn show_starts_an_idle_session_once() {
    let mut session = MultiStep::new("build", 3);
    assert!(session.show());
    assert!(session.is_running());
    session.send("a".to_string());
    assert!(!session.show());
    assert!(session.is_running());
    assert_eq!(session.output(), "a");
}

#[test]
fn show_after_stop_does_nothing() {
    let mut session = MultiStep::new("build", 3);
    session.show();
    session.stop();
    assert!(!session.show());
    assert!(!session.is_running());
}

#[test]
fn window_holds_the_most_recent_lines() {
    for rows in [0usize, 1, 2, 5, 10, 40] {
        let mut session = MultiStep::new("build", rows);
        session.show();
        let lines = numbered(1, 25);
        for (sent, line) in lines.iter().enumerate() {
            session.send(line.clone());
            let count = sent + 1;
            let kept = count.min(rows);
            assert_eq!(session.window(), lines[count - kept..count].to_vec());
            assert_eq!(session.output(), lines[..count].join("\n"));
        }
    }
}

#[test]
fn window_of_no_rows_stays_empty() {
    let mut session = MultiStep::new("build", 0);
    session.show();
    session.send("a".to_string());
    session.send("b".to_string());
    assert!(session.window().is_empty());
    assert_eq!(session.output(), "a\nb");
}

#[test]
fn fifteen_lines_in_ten_rows() {
    let mut session = MultiStep::new("child", 10);
    session.show();
    for line in numbered(1, 15) {
        session.send(line);
    }
    assert_eq!(session.window(), numbered(6, 15));
    assert!(session.stop());
    assert_eq!(session.output(), numbered(1, 15).join("\n"));
    assert!(session.window().is_empty());
}

#[test]
fn output_after_stop_is_the_whole_history() {
    let mut session = MultiStep::new("build", 2);
    session.show();
    session.send("one".to_string());
    session.send("two".to_string());
    session.send("three".to_string());
    let before = session.output();
    session.stop();
    assert_eq!(session.output(), before);
    assert_eq!(session.output(), "one\ntwo\nthree");
}

#[test]
fn lines_sent_after_stop_are_dropped() {
    let mut session = MultiStep::new("build", 2);
    session.show();
    session.send("kept".to_string());
    session.stop();
    session.send("late".to_string());
    assert_eq!(session.output(), "kept");
    assert!(session.window().is_empty());
}

#[test]
fn stop_twice_is_stop_once() {
    let mut session = MultiStep::new("build", 2);
    session.show();
    session.send("a".to_string());
    assert!(session.stop());
    let output = session.output();
    let window = session.window();
    assert!(!session.stop());
    assert_eq!(session.output(), output);
    assert_eq!(session.window(), window);
    assert!(!session.is_running());
}

#[test]
fn stop_of_an_idle_session_does_nothing() {
    let mut session = MultiStep::new("build", 2);
    assert!(!session.stop());
    assert!(!session.is_running());
    assert!(session.show());
}

#[test]
fn two_sources_keep_their_own_order() {
    let first = owned(&["a", "b"]);
    let second = owned(&["x", "y"]);
    let orders: [[(usize, usize); 4]; 6] = [
        [(0, 0), (0, 1), (1, 0), (1, 1)],
        [(0, 0), (1, 0), (0, 1), (1, 1)],
        [(0, 0), (1, 0), (1, 1), (0, 1)],
        [(1, 0), (0, 0), (0, 1), (1, 1)],
        [(1, 0), (0, 0), (1, 1), (0, 1)],
        [(1, 0), (1, 1), (0, 0), (0, 1)],
    ];
    for order in orders {
        let mut session = MultiStep::new("two", 10);
        session.show();
        for (source, at) in order {
            let line = if source == 0 { &first[at] } else { &second[at] };
            for fragment in split_line_to_chunks(line, 120) {
                session.consume(Delivery::Line(fragment));
            }
        }
        session.consume(Delivery::Closed);
        session.stop();
        let output = session.output();
        let lines: Vec<&str> = output.split('\n').collect();
        assert_eq!(lines.len(), 4);
        let at = |wanted: &str| lines.iter().position(|l| *l == wanted).unwrap();
        assert!(at("a") < at("b"));
        assert!(at("x") < at("y"));
    }
}

#[test]
fn consume_takes_lines_in_and_tells_when_to_end() {
    let mut session = MultiStep::new("build", 2);
    assert!(!session.consume(Delivery::Line("early".to_string())));
    session.show();
    assert!(session.consume(Delivery::Line("a".to_string())));
    assert!(session.consume(Delivery::Quiet));
    assert_eq!(session.output(), "a");
    assert!(!session.consume(Delivery::Closed));
    assert!(session.is_running());
    session.stop();
    assert!(!session.consume(Delivery::Quiet));
    assert!(!session.consume(Delivery::Line("late".to_string())));
    assert_eq!(session.output(), "a");
}

#[test]
fn long_source_line_arrives_as_fragments() {
    let mut session = MultiStep::new("build", 10);
    session.show();
    let line = "0123456789".repeat(5);
    for fragment in split_line_to_chunks(&line, 20) {
        session.send(fragment);
    }
    assert_eq!(
        session.window(),
        owned(&["01234567890123456789", "01234567890123456789", "0123456789"])
    );
}

#[test]
fn frame_has_title_row_and_all_content_rows() {
    let lines = owned(&["a", "b"]);
    assert_eq!(
        frame("T", "|", &lines, 3),
        "\u{1b}[4A\u{1b}[1G\u{1b}[JT\n| a\n| b\n|\n"
    );
}

#[test]
fn frame_of_no_rows_is_the_title_row() {
    assert_eq!(frame("T", "|", &Vec::new(), 0), "\u{1b}[1A\u{1b}[1G\u{1b}[JT\n");
}

#[test]
fn frame_moves_up_over_title_and_window() {
    let text = frame("T", "|", &Vec::new(), 10);
    assert!(text.starts_with("\u{1b}[11A\u{1b}[1G\u{1b}[J"));
    assert_eq!(text.matches('\n').count(), 11);
    let far = frame("T", "|", &Vec::new(), 65534);
    assert!(far.starts_with("\u{1b}[65535A\u{1b}[1G\u{1b}[J"));
}

#[test]
fn frame_ignores_lines_beyond_the_rows() {
    let lines = owned(&["a", "b", "c"]);
    assert_eq!(frame("T", "|", &lines, 2), "\u{1b}[3A\u{1b}[1G\u{1b}[JT\n| a\n| b\n");
}

#[test]
fn render_of_a_session_that_does_not_run_is_nothing() {
    let mut session = MultiStep::new("build", 2);
    assert!(session.render().is_none());
    session.show();
    assert!(session.render().is_some());
    session.stop();
    assert!(session.render().is_none());
}

#[test]
fn render_shows_title_and_trimmed_lines() {
    let mut session = MultiStep::new("build", 3);
    session.show();
    session.send("first   \t".to_string());
    session.send("second".to_string());
    let text = session.render().unwrap();
    assert!(text.starts_with("\u{1b}[4A\u{1b}[1G\u{1b}[J⠋ build.\n"));
    assert!(text.ends_with('\n'));
    assert_eq!(text.matches('\n').count(), 4);
    assert_eq!(text.matches('|').count(), 3);
    assert!(text.contains("first"));
    assert!(!text.contains("first "));
    assert!(!text.contains('\t'));
    assert!(text.contains("second"));
    let first = text.find("first").unwrap();
    let second = text.find("second").unwrap();
    assert!(first < second);
}

#[test]
fn render_styles_bar_and_lines() {
    let mut session = MultiStep::new("build", 1);
    session.show();
    session.send("line".to_string());
    let text = session.render().unwrap();
    assert_ne!(text, frame("⠋ build.", "|", &owned(&["line"]), 1));
}

#[test]
fn render_styles_the_bar() {
    let mut session = MultiStep::new("build", 1);
    session.show();
    let text = session.render().unwrap();
    assert_ne!(text, frame("⠋ build.", "|", &Vec::new(), 1));
    assert!(!text.contains("\n|\n"));
    assert!(text.contains('|'));
}

#[test]
fn render_styles_each_line() {
    let mut session = MultiStep::new("build", 1);
    session.show();
    session.send("line".to_string());
    let text = session.render().unwrap();
    assert!(text.contains("line"));
    assert!(!text.contains(" line\n"));
}

#[test]
fn render_advances_the_tick() {
    let mut session = MultiStep::new("build", 0);
    session.show();
    let expected = [
        "⠋ build.", "⠙ build..", "⠹ build...", "⠸ build.", "⠼ build..", "⠴ build...", "⠦ build.",
        "⠧ build..", "⠇ build...", "⠏ build.", "⠋ build..", "⠙ build...",
    ];
    for title in expected {
        let text = session.render().unwrap();
        assert_eq!(text, format!("\u{1b}[1A\u{1b}[1G\u{1b}[J{}\n", title));
    }
}

#[test]
fn opening_hides_the_cursor() {
    let session = MultiStep::new("build", 2);
    assert_eq!(session.opening(), "\u{1b}[?25l");
}

#[test]
fn closing_shows_the_cursor_and_the_finished_title() {
    let session = MultiStep::new("build", 2);
    assert_eq!(
        session.closing_with("[OK]"),
        "\u{1b}[?25h\u{1b}[3A\u{1b}[1G\u{1b}[J[OK] build\n"
    );
    let text = session.closing();
    assert!(text.starts_with("\u{1b}[?25h\u{1b}[3A\u{1b}[1G\u{1b}[J"));
    assert!(text.contains("[OK]"));
    assert!(text.ends_with(" build\n"));
}

#[test]
fn read_step_splits_a_line_into_fragments() {
    assert_eq!(
        read_step(Reading::Line("abcdefg".to_string()), 3),
        Some(owned(&["abc", "def", "g"]))
    );
    assert_eq!(read_step(Reading::Line(String::new()), 3), Some(owned(&[""])));
}

#[test]
fn read_step_skips_a_line_that_is_not_text() {
    assert_eq!(read_step(Reading::Garbled, 3), Some(Vec::new()));
}

#[test]
fn read_step_ends_with_the_stream() {
    assert_eq!(read_step(Reading::Ended, 3), None);
}

#[test]
fn source_with_a_bad_line_goes_on() {
    let mut session = MultiStep::new("build", 10);
    session.show();
    let width = chunk_width(Some(20));
    let readings = vec![
        Reading::Line("first".to_string()),
        Reading::Garbled,
        Reading::Line("a line that is longer than twenty".to_string()),
        Reading::Ended,
        Reading::Line("never read".to_string()),
    ];
    for reading in readings {
        match read_step(reading, width) {
            Some(fragments) => {
                for fragment in fragments {
                    session.send(fragment);
                }
            }
            None => break,
        }
    }
    session.stop();
    assert_eq!(session.output(), "first\na line that is longe\nr than twenty");
}
