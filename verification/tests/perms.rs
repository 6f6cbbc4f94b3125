use kubernation::perms::PermCache;
use kubernation::screens::ClusterId;

#[test]
fn asking_queues_one_probe_and_answers_once_known() {
    let mut c = PermCache::new();
    assert_eq!(c.ask(ClusterId::Hot, "demo"), None);
    assert_eq!(c.ask(ClusterId::Hot, "demo"), None);
    assert_eq!(c.ask(ClusterId::Warm, "demo"), None);
    let todo = c.take_pending();
    assert_eq!(todo, vec![(ClusterId::Hot, "demo".to_string()), (ClusterId::Warm, "demo".to_string())]);
    assert!(c.pending.is_empty());
    c.answer(ClusterId::Hot, "demo".into(), true);
    c.answer(ClusterId::Warm, "demo".into(), false);
    assert_eq!(c.ask(ClusterId::Hot, "demo"), Some(true));
    assert_eq!(c.ask(ClusterId::Warm, "demo"), Some(false));
    assert!(c.pending.is_empty(), "an answered scope is not probed again");
}

#[test]
fn a_later_answer_replaces_an_earlier_one_and_clear_forgets_everything() {
    let mut c = PermCache::new();
    c.answer(ClusterId::Hot, "demo".into(), false);
    c.answer(ClusterId::Hot, "demo".into(), true);
    assert_eq!(c.ask(ClusterId::Hot, "demo"), Some(true));
    c.clear();
    assert_eq!(c.ask(ClusterId::Hot, "demo"), None);
    assert_eq!(c.pending.len(), 1);
}
