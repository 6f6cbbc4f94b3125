use kubernation::city::Tint;
use kubernation::isles::{isle_badge, isle_rows, isle_title, IsleStructure};

fn s(glyph: char, kind: &str, name: &str, detail: &str, alert: bool) -> IsleStructure {
    IsleStructure { glyph, kind: kind.into(), name: name.into(), detail: detail.into(), alert }
}

#[test]
fn island_rows_carry_mark_text_and_tints_then_the_overflow() {
    let rows = isle_rows(
        &vec![
            s('J', "Job", "backup", "done", false),
            s('\u{25cc}', "Deployment", "idle", "", false),
            s('C', "CronJob", "report", "failed \u{2192} 2", true),
        ],
        3,
    );
    assert_eq!(rows.len(), 4);
    assert_eq!(rows[0].text, "Job/backup done");
    assert_eq!((rows[0].mark, rows[0].text_tint), (Tint::Struct, Tint::Ink));
    assert_eq!(rows[1].text, "Deployment/idle");
    assert_eq!(rows[1].mark, Tint::Dim);
    assert_eq!(rows[2].text, "CronJob/report failed ? 2");
    assert_eq!((rows[2].mark, rows[2].text_tint), (Tint::Warn, Tint::Warn));
    assert_eq!((rows[3].glyph, rows[3].text.as_str()), (' ', "+3 more"));
    assert_eq!((rows[3].mark, rows[3].text_tint), (Tint::Dim, Tint::Dim));
    assert!(isle_rows(&vec![], 0).is_empty());
}

#[test]
fn an_island_is_titled_and_badged_by_its_count() {
    assert_eq!(isle_title("payments"), "isle of payments");
    assert_eq!(isle_badge(2, 5), Some("7".to_string()));
    assert_eq!(isle_badge(0, 0), None);
}
