use kubernation::logs::{contains_sub, earlier_note, filter_note, log_title, log_view, no_match_line, select_tail, text_lines};

#[test]
fn text_splits_into_lines_like_std() {
    for t in ["", "a", "a\n", "a\nb", "a\r\nb\r\n", "\n\n", "a\rb\n", "x\r"] {
        let ours: Vec<String> = text_lines(t);
        let std_lines: Vec<String> = t.lines().map(|l| l.to_string()).collect();
        assert_eq!(ours, std_lines, "{t:?}");
    }
}

#[test]
fn the_filter_is_case_insensitive_and_shows_the_newest_lines() {
    let text = "Starting\nERROR one\nok\nerror two\nError three\n";
    let v = log_view(text, "error", 2);
    assert_eq!(v.total, 5);
    assert_eq!(v.matched, 3);
    assert_eq!(v.earlier, 1);
    assert_eq!(v.shown, vec!["error two".to_string(), "Error three".to_string()]);
}

#[test]
fn an_empty_filter_keeps_every_line() {
    let v = log_view("a\nb\nc", "", 10);
    assert_eq!(v.matched, 3);
    assert_eq!(v.earlier, 0);
    assert_eq!(v.shown, vec!["a".to_string(), "b".to_string(), "c".to_string()]);
}

#[test]
fn long_lines_are_cut() {
    let long = "x".repeat(200);
    let v = log_view(&long, "", 5);
    assert_eq!(v.shown[0].chars().count(), 150);
    assert!(v.shown[0].ends_with('~'));
}

#[test]
fn select_tail_uses_the_lowered_forms_it_is_given() {
    let lines = vec!["A".to_string(), "b".to_string()];
    let lowered = vec!["zz".to_string(), "b".to_string()];
    let v = select_tail(&lines, &lowered, "z", 1);
    assert_eq!(v.shown, vec!["A".to_string()]);
    assert_eq!(v.matched, 1);
}

#[test]
fn substring_search() {
    assert!(contains_sub("hello world", "o w"));
    assert!(contains_sub("abc", ""));
    assert!(!contains_sub("ab", "abc"));
    assert!(!contains_sub("abc", "ac"));
    assert!(contains_sub("abc", "abc"));
}

#[test]
fn the_overlay_chrome() {
    assert_eq!(log_title(Some((true, "demo", "web-1")), true), "logs \u{b7} WARM demo/web-1 <previous>");
    assert_eq!(log_title(Some((false, "demo", "web-1")), false), "logs \u{b7} demo/web-1");
    assert_eq!(log_title(None, true), "logs");
    assert_eq!(filter_note("err", true, 3, 9), Some("filter: err_".to_string()));
    assert_eq!(filter_note("err", false, 3, 9), Some("filter: err  (3/9)".to_string()));
    assert_eq!(filter_note("", false, 9, 9), None);
    assert_eq!(no_match_line("zzz"), "(no lines match \"zzz\")");
    assert_eq!(earlier_note(4), Some("\u{2026} 4 earlier lines".to_string()));
    assert_eq!(earlier_note(0), None);
}
