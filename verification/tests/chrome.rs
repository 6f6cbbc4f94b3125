use kubernation::chrome::{
    attention_strip, census_status, commit_confirm_line, concern_tokens, confirm_click,
    evict_subject, gauge_source, picker_marks, ConcernLine,
};
use kubernation::region::Tone;
use kubernation::reports::Severity;
use kubernation::screens::ClusterId;

fn concern(title: &str, severity: Severity, cluster: ClusterId) -> ConcernLine {
    ConcernLine { title: title.into(), detail: "d".into(), severity, cluster }
}

#[test]
fn an_empty_strip_is_all_quiet() {
    let (lines, more) = attention_strip(&vec![], true, 0);
    assert_eq!(lines, vec![("all quiet - no concerns".to_string(), Tone::InkDim)]);
    assert_eq!(more, None);
}

#[test]
fn the_strip_shows_three_marks_the_cursor_and_counts_the_rest() {
    let cs = vec![
        concern("a", Severity::Critical, ClusterId::Hot),
        concern("b", Severity::Warning, ClusterId::Warm),
        concern("c", Severity::Info, ClusterId::Hot),
        concern("d", Severity::Info, ClusterId::Hot),
    ];
    let (lines, more) = attention_strip(&cs, true, 5);
    assert_eq!(
        lines,
        vec![
            ("  [H] a - d".to_string(), Tone::Crit),
            ("> [W] b - d".to_string(), Tone::Warn),
            ("  [H] c - d".to_string(), Tone::Ink),
        ]
    );
    assert_eq!(more, Some("+1".to_string()));
    let (single, _) = attention_strip(&cs[..1].to_vec(), false, 0);
    assert_eq!(single[0].0, "> a - d");
}

#[test]
fn the_status_block() {
    assert_eq!(
        concern_tokens(2, 0, 1),
        vec![
            ("2 crit".to_string(), Tone::Crit),
            ("0 warn".to_string(), Tone::InkDim),
            ("1 info".to_string(), Tone::Ink),
        ]
    );
    assert_eq!(census_status("EKS", 3, 40), "EKS . 3 nodes . 40 pods");
    assert_eq!(gauge_source(true), "gauges: live usage");
    assert_eq!(gauge_source(false), "gauges: scheduling pressure");
}

#[test]
fn the_confirm_modals() {
    assert_eq!(evict_subject(true, "demo", "web-1"), "WARM demo/web-1");
    assert_eq!(evict_subject(false, "demo", "web-1"), "demo/web-1");
    assert_eq!(commit_confirm_line(3), "Apply 3 staged change(s) to the cluster.");
    assert_eq!(confirm_click(true, true, false), (true, false));
    assert_eq!(confirm_click(false, true, true), (false, false));
}

#[test]
fn the_picker_marks_the_active_item_and_the_cursor() {
    let items = vec!["a".to_string(), "b".to_string(), "c".to_string()];
    assert_eq!(picker_marks(&items, "b", 2), vec![(false, false), (true, false), (false, true)]);
}
