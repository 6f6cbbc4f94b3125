use kubernation::city::PodState;
use kubernation::legend::{
    entry_click, entry_target, legend_items, LegendItem, locate, mark_locator, CityMark, CoastMark, Continent, Island, LegendWorld, Locator, Mark,
    Province, StructureMark,
};
use kubernation::region::NodeHealth;

fn world() -> LegendWorld {
    LegendWorld {
        cities: vec![
            CityMark { x: 4, y: 5, has_storage: false },
            CityMark { x: 6, y: 7, has_storage: true },
        ],
        continents: vec![
            Continent {
                provinces: vec![Province { x: 1, y: 1, infra: 0 }],
                coast: vec![CoastMark { harbor: false, x: 9, y: 9 }],
            },
            Continent {
                provinces: vec![Province { x: 10, y: 2, infra: 3 }, Province { x: 12, y: 2, infra: 1 }],
                coast: vec![CoastMark { harbor: true, x: 11, y: 3 }],
            },
        ],
        islands: vec![
            Island { x: 20, structures: vec![StructureMark { glyph: '\u{25cc}', y: 4 }] },
            Island { x: 30, structures: vec![StructureMark { glyph: '\u{2726}', y: 6 }, StructureMark { glyph: '\u{25cc}', y: 8 }] },
        ],
    }
}

#[test]
fn legend_marks_point_at_live_features() {
    assert_eq!(mark_locator(Mark::Camp), Some(Locator::Encampment));
    assert_eq!(mark_locator(Mark::Terrain(NodeHealth::Cordoned)), Some(Locator::Node));
    assert_eq!(mark_locator(Mark::Pod(PodState::Failing)), None);
    assert_eq!(mark_locator(Mark::Gauge), None);
}

#[test]
fn locate_finds_the_first_instance_in_map_order() {
    let w = world();
    assert_eq!(locate(&w, Locator::City), Some((4, 5)));
    assert_eq!(locate(&w, Locator::Granary), Some((6, 7)));
    assert_eq!(locate(&w, Locator::Node), Some((3, 1)));
    assert_eq!(locate(&w, Locator::Road), Some((12, 2)));
    assert_eq!(locate(&w, Locator::Harbor), Some((11, 3)));
    assert_eq!(locate(&w, Locator::Gate), Some((9, 9)));
    assert_eq!(locate(&w, Locator::Encampment), Some((21, 4)));
    assert_eq!(locate(&w, Locator::Custom), Some((31, 6)));
    assert_eq!(locate(&w, Locator::Job), None);
}

#[test]
fn an_empty_world_locates_nothing() {
    let w = LegendWorld { cities: vec![], continents: vec![], islands: vec![] };
    assert_eq!(locate(&w, Locator::City), None);
    assert_eq!(locate(&w, Locator::Node), None);
    assert_eq!(locate(&w, Locator::CronJob), None);
}

#[test]
fn the_legend_explains_every_mark_and_lights_the_live_ones() {
    let items = legend_items();
    assert_eq!(items[0], LegendItem::Para("Entries marked  >  have a live example \u{2014} click to fly there."));
    let entries: Vec<Mark> = items
        .iter()
        .filter_map(|i| match i {
            LegendItem::Entry(m, _, _) => Some(*m),
            _ => None,
        })
        .collect();
    assert_eq!(entries.len(), 19);
    assert!(entries.contains(&Mark::Camp) && entries.contains(&Mark::Gauge));
    let w = world();
    assert_eq!(entry_target(Mark::Granary, Some(&w)), Some((6, 7)));
    assert_eq!(entry_target(Mark::Gauge, Some(&w)), None);
    assert_eq!(entry_target(Mark::City, None), None);
    assert_eq!(entry_click(Some((1, 2)), true, true, true), (true, Some((1, 2))));
    assert_eq!(entry_click(Some((1, 2)), false, true, true), (false, None));
    assert_eq!(entry_click(None, true, true, true), (false, None));
    assert_eq!(entry_click(Some((1, 2)), true, true, false), (true, None));
}
