use kubernation::layout::{Loaded, Trust};

#[test]
fn only_the_outcomes_worth_reporting_announce_themselves() {
    assert_eq!(Loaded::Restored { slots: 12, trust: Trust::Verified }.announce(), None);
    let unverified = Loaded::Restored { slots: 12, trust: Trust::Unverified }
        .announce()
        .expect("unverified restores are announced");
    assert!(unverified.contains("12"));
    assert!(Loaded::Discarded("because".into()).announce().is_some());
}

#[test]
fn a_fresh_start_announces_nothing() {
    assert_eq!(Loaded::Fresh.announce(), None);
}

#[test]
fn an_unverified_restore_says_exactly_what_it_could_not_confirm() {
    let line = Loaded::Restored { slots: 3, trust: Trust::Unverified }.announce().unwrap();
    assert_eq!(line, "restored 3 map positions \u{2014} could not confirm this is the same cluster");
}

#[test]
fn a_discarded_layout_announces_its_reason_verbatim() {
    assert_eq!(Loaded::Discarded("why".into()).announce(), Some("why".to_string()));
}

#[test]
fn an_unreadable_file_names_the_error_and_where_it_went() {
    let l = Loaded::read_failed("permission denied");
    assert_eq!(
        l,
        Loaded::Discarded("could not read the saved map (permission denied) \u{2014} starting fresh".into())
    );
    let u = Loaded::unreadable("bad json", "/s/l/p.json.unreadable-7");
    assert_eq!(
        u.announce().unwrap(),
        "the saved map was unreadable (bad json) \u{2014} starting fresh; the old file is at /s/l/p.json.unreadable-7"
    );
}
