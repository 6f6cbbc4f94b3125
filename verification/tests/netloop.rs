use kubernation::netloop::{
    attention_order, evicted_toast, evicting_toast, filters_equal, keep_fetched_tail,
    serving_cluster, session_label, should_fetch_logs, should_list, should_rebuild,
    toast_expired, warm_wanted, ConcernKey, LogReq,
};
use kubernation::netloop::{apply_switch, switch_failed_status, switching_status, HotState};
use kubernation::perms::PermCache;
use kubernation::screens::ClusterId;
use kubernation::ui::NamespaceFilter;

fn req(pod: &str) -> LogReq {
    LogReq { cluster: ClusterId::Hot, namespace: "demo".into(), pod: pod.into(), previous: false }
}

fn key(rank: u8, k: &str, cluster: ClusterId) -> ConcernKey {
    ConcernKey { rank, key: k.into(), cluster }
}

#[test]
fn a_warm_context_equal_to_the_hot_one_runs_single_world() {
    assert!(warm_wanted(Some("dr"), "prod"));
    assert!(!warm_wanted(Some("prod"), "prod"));
    assert!(!warm_wanted(None, "prod"));
    assert_eq!(session_label("prod", "EKS", Some("dr")), "HOT prod / WARM dr");
    assert_eq!(session_label("prod", "EKS", None), "prod \u{b7} EKS");
}

#[test]
fn logs_are_fetched_on_a_new_request_and_every_two_seconds() {
    assert!(should_fetch_logs(&Some(req("a")), &None, 3));
    assert!(should_fetch_logs(&Some(req("a")), &Some(req("b")), 3));
    assert!(!should_fetch_logs(&Some(req("a")), &Some(req("a")), 3));
    assert!(should_fetch_logs(&Some(req("a")), &Some(req("a")), 16));
    assert!(!should_fetch_logs(&None, &Some(req("a")), 16));
    let mut prev = req("a");
    prev.previous = true;
    assert!(should_fetch_logs(&Some(prev), &Some(req("a")), 3), "toggling previous re-fetches");
}

#[test]
fn a_stale_tail_is_dropped() {
    assert!(keep_fetched_tail(&req("a"), &Some(req("a"))));
    assert!(!keep_fetched_tail(&req("a"), &Some(req("b"))));
    assert!(!keep_fetched_tail(&req("a"), &None));
}

#[test]
fn the_browser_relists_on_a_fresh_request_a_new_kind_or_the_refresh() {
    assert!(should_list(true, "Pod", &Some("Pod".into()), 3));
    assert!(should_list(false, "Pod", &Some("Secret".into()), 3));
    assert!(should_list(false, "Pod", &None, 3));
    assert!(!should_list(false, "Pod", &Some("Pod".into()), 3));
    assert!(should_list(false, "Pod", &Some("Pod".into()), 8));
}

#[test]
fn the_toast_clears_after_three_seconds() {
    assert!(!toast_expired(Some(10), 22));
    assert!(toast_expired(Some(10), 23));
    assert!(!toast_expired(None, 100));
    assert!(!toast_expired(Some(10), 5));
    assert_eq!(evicting_toast("demo", "web-1"), "evicting demo/web-1 \u{2026}");
    assert_eq!(evicted_toast("demo", "web-1", Ok(())), "evicted demo/web-1");
    assert_eq!(evicted_toast("demo", "web-1", Err("forbidden".into())), "evict failed: forbidden");
}

#[test]
fn warm_requests_fall_back_to_the_hot_client() {
    assert_eq!(serving_cluster(ClusterId::Warm, true), ClusterId::Warm);
    assert_eq!(serving_cluster(ClusterId::Warm, false), ClusterId::Hot);
    assert_eq!(serving_cluster(ClusterId::Hot, true), ClusterId::Hot);
}

#[test]
fn models_rebuild_on_change_or_a_new_filter() {
    let all = NamespaceFilter::All;
    let demo = NamespaceFilter::Only(vec!["demo".into()]);
    assert!(!should_rebuild(false, true, &all, &demo), "not before the hot world syncs");
    assert!(should_rebuild(true, true, &all, &all));
    assert!(should_rebuild(true, false, &all, &demo));
    assert!(!should_rebuild(true, false, &demo, &NamespaceFilter::Only(vec!["demo".into()])));
    assert!(!filters_equal(&demo, &NamespaceFilter::Only(vec!["demo".into(), "web".into()])));
    assert!(filters_equal(&all, &NamespaceFilter::All));
}

#[test]
fn the_attention_list_is_most_severe_first_then_by_key_then_hot_first() {
    let keys = vec![
        key(1, "b", ClusterId::Hot),
        key(2, "z", ClusterId::Warm),
        key(1, "a", ClusterId::Warm),
        key(2, "z", ClusterId::Hot),
        key(1, "a", ClusterId::Hot),
    ];
    assert_eq!(attention_order(&keys), vec![3, 1, 4, 2, 0]);
    assert_eq!(attention_order(&vec![]), Vec::<usize>::new());
}

#[test]
fn concerns_that_order_alike_keep_their_input_order() {
    let keys = vec![
        key(1, "web", ClusterId::Hot),
        key(2, "db", ClusterId::Hot),
        key(1, "web", ClusterId::Hot),
        key(1, "web", ClusterId::Hot),
    ];
    assert_eq!(attention_order(&keys), vec![1, 0, 2, 3]);
}

#[test]
fn a_context_switch_forgets_the_old_cluster() {
    let mut perms = PermCache::new();
    perms.answer(ClusterId::Hot, "demo".to_string(), true);
    let mut st = HotState {
        ready_hot: true,
        has_snapshot: true,
        status: "old".to_string(),
        perms,
        ns_filter: NamespaceFilter::Only(vec!["demo".to_string()]),
        kinds: Some(vec!["Pod".to_string()]),
        discover_warnings: vec!["slow".to_string()],
        browse_req: Some("Pod".to_string()),
        has_browse_out: true,
    };
    apply_switch(&mut st, "staging", "EKS", None);
    assert!(!st.ready_hot && !st.has_snapshot && !st.has_browse_out);
    assert!(st.perms.known.is_empty() && st.perms.pending.is_empty());
    assert!(matches!(st.ns_filter, NamespaceFilter::All));
    assert!(st.kinds.is_none() && st.discover_warnings.is_empty() && st.browse_req.is_none());
    assert_eq!(st.status, "staging \u{b7} EKS \u{b7} exploring\u{2026}");
    assert_eq!(switching_status("staging"), "switching \u{2192} staging \u{2026}");
    assert_eq!(switch_failed_status("no route"), "switch failed: no route");
}
