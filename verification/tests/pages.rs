use std::cell::Cell;

use kubernation::city::Tint;
use kubernation::pages::{
    health_page, network_page, storage_page, HealthReport, NamedDetail, NetworkReport, PageRow,
    ReportCache, StorageReport,
};

type Cache = ReportCache<HealthReport, StorageReport, NetworkReport, u32, u32>;

fn health() -> HealthReport {
    HealthReport {
        nodes_total: 3,
        nodes_healthy: 2,
        nodes_cordoned: 0,
        nodes_pressure: 1,
        nodes_notready: 0,
        pods_total: 10,
        pods_running: 8,
        pods_starting: 0,
        pods_pending: 1,
        pods_terminating: 0,
        pods_failing: 1,
        pods_succeeded: 0,
        workloads_total: 4,
        workloads_degraded: 0,
        metrics_live: false,
    }
}

fn stat(label: &str, value: &str, tint: Tint) -> PageRow {
    PageRow::Stat { label: label.into(), value: value.into(), tint }
}

#[test]
fn the_report_cache_is_keyed_on_the_snapshot_and_invalidates_as_one() {
    let mut c: Cache = ReportCache::new();
    c.sync(1);
    c.health = Some(health());
    c.hardening = Some(7);
    c.sync(1);
    assert!(c.health.is_some() && c.hardening.is_some(), "same tick must reuse");
    c.sync(2);
    assert!(c.health.is_none() && c.hardening.is_none(), "a new snapshot must invalidate every slot");
    assert_eq!(c.key, Some(2));
}

#[test]
fn a_report_is_built_once_per_snapshot_not_once_per_frame() {
    let builds = Cell::new(0);
    let mut c: Cache = ReportCache::new();
    for _ in 0..60 {
        c.sync(1);
        c.fill_health(|| {
            builds.set(builds.get() + 1);
            health()
        });
    }
    assert_eq!(builds.get(), 1, "rebuilt inside the draw loop");
    for _ in 0..60 {
        c.sync(2);
        c.fill_health(|| {
            builds.set(builds.get() + 1);
            health()
        });
    }
    assert_eq!(builds.get(), 2, "a new snapshot must rebuild once, not zero or sixty");
}

#[test]
fn a_cache_miss_rebuilds_rather_than_defaulting() {
    let mut c: Cache = ReportCache::new();
    c.sync(1);
    assert!(c.health.is_none(), "starts empty");
    c.fill_health(health);
    let filled = c.health.as_ref().unwrap();
    assert_eq!(filled.nodes_total, health().nodes_total, "a miss must produce the real report, not Default");
    assert!(filled.nodes_total > 0, "and not an empty one");
}

#[test]
fn filling_one_slot_leaves_the_others_alone() {
    let mut c: Cache = ReportCache::new();
    c.sync(5);
    c.fill_rightsizing(|| 3);
    c.fill_hardening(|| 4);
    c.fill_rightsizing(|| 99);
    assert_eq!(c.rightsizing, Some(3));
    assert_eq!(c.hardening, Some(4));
    assert!(c.health.is_none() && c.storage.is_none() && c.network.is_none());
}

#[test]
fn the_health_page_tints_bad_counts_only_when_non_zero() {
    let rows = health_page(&health());
    assert_eq!(rows[0], PageRow::Heading("PROVINCES (NODES)".into()));
    assert_eq!(rows[3], stat("cordoned", "0", Tint::Dim));
    assert_eq!(rows[4], stat("under pressure", "1", Tint::Warn));
    assert_eq!(rows[12], stat("failing", "1", Tint::Crit));
    assert_eq!(rows[16], stat("understrength", "0", Tint::Dim));
    assert_eq!(rows[17], PageRow::Note("node gauges: scheduling pressure (requests)".into(), Tint::Dim));
    assert_eq!(rows.len(), 18);
}

#[test]
fn the_storage_page_lists_pending_claims_or_says_all_are_bound() {
    let empty = storage_page(&StorageReport { total: 2, bound: 2, pending: 0, pending_claims: vec![] });
    assert_eq!(empty.last().unwrap(), &PageRow::Note("all claims bound \u{2014} granaries full".into(), Tint::Dim));
    let pending = storage_page(&StorageReport {
        total: 2,
        bound: 1,
        pending: 1,
        pending_claims: vec![NamedDetail { namespace: "demo".into(), name: "data".into(), detail: "Pending".into() }],
    });
    assert_eq!(pending[3], stat("pending", "1", Tint::Warn));
    assert_eq!(pending.last().unwrap(), &stat("demo/data", "Pending", Tint::Warn));
}

#[test]
fn the_network_page_lists_orphans_and_idle_harbors() {
    let rows = network_page(&NetworkReport {
        services: 2,
        ingresses: 1,
        orphan_ingresses: vec![NamedDetail { namespace: "demo".into(), name: "gate".into(), detail: "no backend".into() }],
        idle_services: vec![],
    });
    assert_eq!(rows[4], stat("demo/gate", "no backend", Tint::Warn));
    assert_eq!(rows[6], PageRow::Note("every harbor serves a city".into(), Tint::Dim));
    assert_eq!(rows.last().unwrap(), &PageRow::Heading("WALLS (segmentation)".into()));
}
