use kizubin::commands::builders::android::{patch_cmake, patch_cpp_adapter};
use kizubin::commands::builders::android::{patch_cpp_adapter_lines, ubrn_command, ubrn_label};
use kizubin::commands::builders::android::{CPP_ADAPTER_HEAD, CPP_ADAPTER_MAIN_PATCH};
use kizubin::commands::{resolve_project_root, setup_check, NOT_IN_PROJECT};
use kizubin::text::{copy_range, join, lines_of, replace_char, without_trailing_space};

fn owned(parts: &[&str]) -> Vec<String> {
    parts.iter().map(|p| p.to_string()).collect()
}

fn numbered(count: usize) -> Vec<String> {
    (1..=count).map(|i| format!("l{}", i)).collect()
}

#[test]
fn project_root_defaults_to_here() {
    assert_eq!(resolve_project_root(None), ".");
    assert_eq!(resolve_project_root(Some("app")), "app");
}

#[test]
fn setup_check_passes_inside_a_project() {
    assert_eq!(setup_check(true, false), Ok(false));
}

#[test]
fn setup_check_warns_whenever_forced() {
    assert_eq!(setup_check(false, true), Ok(true));
    assert_eq!(setup_check(true, true), Ok(true));
}

#[test]
fn setup_check_fails_outside_a_project() {
    assert_eq!(
        setup_check(false, false),
        Err("not in react native project. specify one with `--project` or run with `--force` to ignore this".to_string())
    );
    assert_eq!(setup_check(false, false), Err(NOT_IN_PROJECT.to_string()));
}

#[test]
fn ubrn_command_patched_and_unpatched() {
    assert_eq!(
        ubrn_command(false).to_string(),
        "uniffi-bindgen-react-native build android --and-generate"
    );
    assert_eq!(ubrn_command(true).to_string(), "yarn ubrn build android --and-generate");
    assert_eq!(ubrn_command(true).program(), "yarn");
    assert_eq!(ubrn_command(false).get_cwd(), ".");
    assert!(ubrn_command(false).variables().is_empty());
    assert_eq!(ubrn_label(false), "building with ubrn (patched)");
    assert_eq!(ubrn_label(true), "building with ubrn (unpatched)");
}

#[test]
fn patch_cmake_turns_backslashes() {
    assert_eq!(patch_cmake("add(a\\b\\c.cpp)\nx/y\n"), "add(a/b/c.cpp)\nx/y\n");
    assert_eq!(patch_cmake(""), "");
}

#[test]
fn lines_of_follows_line_feeds() {
    assert_eq!(lines_of(""), Vec::<String>::new());
    assert_eq!(lines_of("a"), owned(&["a"]));
    assert_eq!(lines_of("a\n"), owned(&["a"]));
    assert_eq!(lines_of("a\nb"), owned(&["a", "b"]));
    assert_eq!(lines_of("a\n\nb\n"), owned(&["a", "", "b"]));
    assert_eq!(lines_of("\n"), owned(&[""]));
    assert_eq!(lines_of("\n\n"), owned(&["", ""]));
}

#[test]
fn lines_of_drops_carriage_returns_before_line_feeds() {
    assert_eq!(lines_of("a\r\nb\r\n"), owned(&["a", "b"]));
    assert_eq!(lines_of("a\rb\n"), owned(&["a\rb"]));
    assert_eq!(lines_of("a\r"), owned(&["a\r"]));
    assert_eq!(lines_of("a\r\r\nb"), owned(&["a\r", "b"]));
    assert_eq!(lines_of("\r\n"), owned(&[""]));
    assert_eq!(lines_of("\r"), owned(&["\r"]));
    assert_eq!(lines_of("a\n\r"), owned(&["a", "\r"]));
}

#[test]
fn lines_of_agrees_with_the_standard_library() {
    let samples = [
        "", "\n", "\r", "\r\n", "a", "a\n", "a\r\n", "a\r", "\ra", "a\rb", "a\r\rb\r\n\r\n",
        "one\ntwo\r\nthree\rfour\n\nfive", "x\n\n\n", "\n\nx", "ü\r\n✓\n", "\r\r\r", "\r\r\n\r",
    ];
    for sample in samples {
        let expected: Vec<String> = sample.lines().map(|l| l.to_string()).collect();
        assert_eq!(lines_of(sample), expected);
    }
}

#[test]
fn patch_cpp_adapter_keeps_top_and_tail() {
    let lines = numbered(60);
    let content = lines.join("\n");
    let expected = format!(
        "#include <fbjni/fbjni.h>\n{}{}{}",
        lines[..26].join("\n"),
        CPP_ADAPTER_MAIN_PATCH,
        lines[55..].join("\n")
    );
    assert_eq!(patch_cpp_adapter_lines(&lines), expected);
    assert_eq!(patch_cpp_adapter(&content), Some(expected));
}

#[test]
fn patch_cpp_adapter_of_exactly_the_lines_replaced() {
    let lines = numbered(55);
    let patched = patch_cpp_adapter_lines(&lines);
    assert!(patched.starts_with(CPP_ADAPTER_HEAD));
    assert!(patched.starts_with("#include <fbjni/fbjni.h>\nl1\nl2\n"));
    assert!(patched.ends_with(CPP_ADAPTER_MAIN_PATCH));
    assert!(patched.contains("l26\n    try {"));
    assert!(!patched.contains("l27"));
    assert!(!patched.contains("l55"));
}

#[test]
fn patch_cpp_adapter_refuses_short_text() {
    assert_eq!(patch_cpp_adapter(""), None);
    assert_eq!(patch_cpp_adapter(&numbered(54).join("\n")), None);
    assert!(patch_cpp_adapter(&numbered(55).join("\r\n")).is_some());
}

#[test]
fn patch_text_is_the_replacement_block() {
    assert!(CPP_ADAPTER_MAIN_PATCH.starts_with("\n    try {\n"));
    assert!(CPP_ADAPTER_MAIN_PATCH.ends_with("    } catch (...) {\n        return false;\n    }\n"));
    assert_eq!(CPP_ADAPTER_MAIN_PATCH.lines().count(), 22);
    assert!(CPP_ADAPTER_MAIN_PATCH
        .contains("return {{ ns }}::installRustCrate(*runtime, jsCallInvoker);"));
}

#[test]
fn join_puts_the_separator_between() {
    assert_eq!(join(&Vec::new(), ", "), "");
    assert_eq!(join(&owned(&["a"]), ", "), "a");
    assert_eq!(join(&owned(&["a", "b", "c"]), ", "), "a, b, c");
    assert_eq!(join(&owned(&["", ""]), "-"), "-");
}

#[test]
fn replace_char_replaces_every_occurrence() {
    assert_eq!(replace_char("a.b.c", '.', '-'), "a-b-c");
    assert_eq!(replace_char("...", '.', 'ü'), "üüü");
    assert_eq!(replace_char("abc", 'x', 'y'), "abc");
}

#[test]
fn copy_range_copies_the_strings_between() {
    let lines = owned(&["a", "b", "c", "d"]);
    assert_eq!(copy_range(&lines, 1, 3), owned(&["b", "c"]));
    assert_eq!(copy_range(&lines, 0, 4), lines);
    assert_eq!(copy_range(&lines, 2, 2), Vec::<String>::new());
}

#[test]
fn trailing_white_space_is_cut() {
    assert_eq!(without_trailing_space("line  \t\r\n"), "line");
    assert_eq!(without_trailing_space("  line"), "  line");
    assert_eq!(without_trailing_space("a b "), "a b");
    assert_eq!(without_trailing_space(" \u{a0}\u{3000}"), "");
    assert_eq!(without_trailing_space(""), "");
}
