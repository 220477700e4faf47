use kizubin::cliutil::{chunk_graphemes, chunk_width, split_line_to_chunks};

fn owned(parts: &[&str]) -> Vec<String> {
    parts.iter().map(|p| p.to_string()).collect()
}

#[test]
fn short_line_is_one_fragment() {
    assert_eq!(split_line_to_chunks("hello", 20), owned(&["hello"]));
}

#[test]
fn long_line_is_cut_at_the_width() {
    assert_eq!(split_line_to_chunks("abcdefgh", 3), owned(&["abc", "def", "gh"]));
}

#[test]
fn line_of_exactly_the_width_is_one_fragment() {
    assert_eq!(split_line_to_chunks("abc", 3), owned(&["abc"]));
    assert_eq!(split_line_to_chunks("abcdef", 3), owned(&["abc", "def"]));
}

#[test]
fn width_one_gives_one_cluster_per_fragment() {
    assert_eq!(split_line_to_chunks("abc", 1), owned(&["a", "b", "c"]));
}

#[test]
fn empty_line_is_one_empty_fragment() {
    assert_eq!(split_line_to_chunks("", 5), owned(&[""]));
    assert_eq!(chunk_graphemes(&Vec::new(), 5), owned(&[""]));
}

#[test]
fn combining_marks_stay_with_their_base() {
    let line = "a\u{310}e\u{301}o\u{308}\u{332}";
    assert_eq!(
        split_line_to_chunks(line, 1),
        owned(&["a\u{310}", "e\u{301}", "o\u{308}\u{332}"])
    );
    assert_eq!(
        split_line_to_chunks(line, 2),
        owned(&["a\u{310}e\u{301}", "o\u{308}\u{332}"])
    );
}

#[test]
fn flags_and_line_ends_are_not_cut() {
    let line = "a\r\nb🇷🇺🇸🇹";
    assert_eq!(
        split_line_to_chunks(line, 1),
        owned(&["a", "\r\n", "b", "🇷🇺", "🇸🇹"])
    );
}

#[test]
fn fragments_concatenate_to_the_line() {
    let lines = [
        "",
        "x",
        "plain ascii text that is longer than the width",
        "mixed ✓ e\u{301} 🇷🇺 text with wide things 你好世界",
        "   leading and trailing   ",
    ];
    for line in lines {
        for width in [1usize, 2, 3, 7, 20, 120, usize::MAX] {
            let parts = split_line_to_chunks(line, width);
            assert_eq!(parts.concat(), line);
            assert!(!parts.is_empty());
        }
    }
}

#[test]
fn fragments_hold_at_most_width_clusters() {
    let line = "e\u{301}e\u{301}e\u{301}e\u{301}e\u{301}e\u{301}e\u{301}";
    let parts = split_line_to_chunks(line, 3);
    assert_eq!(parts.len(), 3);
    assert_eq!(parts[0].chars().count(), 6);
    assert_eq!(parts[1].chars().count(), 6);
    assert_eq!(parts[2].chars().count(), 2);
}

#[test]
fn chunk_graphemes_groups_whole_clusters() {
    let clusters = owned(&["ab", "c", "de", "f", "g"]);
    assert_eq!(chunk_graphemes(&clusters, 2), owned(&["abc", "def", "g"]));
    assert_eq!(chunk_graphemes(&clusters, 5), owned(&["abcdefg"]));
    assert_eq!(chunk_graphemes(&clusters, 6), owned(&["abcdefg"]));
    assert_eq!(chunk_graphemes(&clusters, usize::MAX), owned(&["abcdefg"]));
}

#[test]
fn chunk_width_of_unknown_terminal_is_the_default() {
    assert_eq!(chunk_width(None), 120);
}

#[test]
fn chunk_width_is_held_below_the_terminal_width() {
    assert_eq!(chunk_width(Some(80)), 80);
    assert_eq!(chunk_width(Some(20)), 20);
    assert_eq!(chunk_width(Some(119)), 119);
}

#[test]
fn chunk_width_never_exceeds_the_default() {
    assert_eq!(chunk_width(Some(120)), 120);
    assert_eq!(chunk_width(Some(121)), 120);
    assert_eq!(chunk_width(Some(u16::MAX)), 120);
}
