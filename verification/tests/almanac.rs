use kubernation::almanac::{controls_page, reading_page, world_page, PageLine};

fn texts(lines: &[PageLine]) -> String {
    let mut all = String::new();
    for l in lines {
        match l {
            PageLine::Heading(h) => all.push_str(h),
            PageLine::Para(p) => all.push_str(p),
            PageLine::Key(k, v) => {
                all.push_str(k);
                all.push_str(v);
            }
        }
        all.push('\n');
    }
    all
}

#[test]
fn the_world_page_opens_with_its_heading_and_says_it_only_watches() {
    let w = world_page();
    assert_eq!(w.len(), 10);
    assert_eq!(w[0], PageLine::Heading("The world is your cluster"));
    assert_eq!(w[8], PageLine::Heading("Observe-only"));
    assert!(texts(&w).contains("no mutation paths anywhere"));
}

#[test]
fn the_controls_page_lists_the_keys_under_four_headings() {
    let c = controls_page();
    assert_eq!(c.len(), 27);
    let headings: Vec<&str> = c
        .iter()
        .filter_map(|l| match l {
            PageLine::Heading(h) => Some(*h),
            _ => None,
        })
        .collect();
    assert_eq!(headings, vec!["Explore", "Inspect", "Plan & cluster", "Menu bar"]);
    assert!(c.contains(&PageLine::Key("Q", "quit")));
    assert!(c.contains(&PageLine::Key("F", "fit the whole world on screen")));
}

#[test]
fn the_reading_page_explains_scale_gauges_and_the_budget() {
    let r = reading_page();
    assert_eq!(r.len(), 15);
    assert_eq!(r[0], PageLine::Heading("Cartographic scale"));
    let all = texts(&r);
    assert!(all.contains("Calm below 70%"));
    assert!(all.contains("kubernation.io/slo-target"));
    assert!(all.contains("+w only on warm"));
}
