//! The modal windows' state and click decisions: the almanac's pages, the
//! about text, the resource browser's mode, and the small text helpers the
//! windows share. Hit-testing (which button the mouse is over) is done by
//! the caller; these functions decide what a click means.

use vstd::prelude::*;
use crate::text::{push_char, push_str};
use crate::advisor::{Advisor, AdvisorTab, tab_at, TAB_COUNT};

verus! {

/// What a click on a tabbed window means.
#[derive(Debug, Clone, Copy, PartialEq, Eq, Structural)]
pub enum WindowClick {
    /// Nothing to do.
    Stay,
    Close,
    /// Switch to the tab at this index.
    Tab(usize),
}

/// A click on a window with `tabs` tab buttons followed by a Close button:
/// the close box, the trailing Close button or a click outside the frame
/// close it; a tab button switches to that tab; anything else stays.
pub open spec fn tab_window_click_spec(
    click: bool,
    on_close: bool,
    button: Option<usize>,
    in_frame: bool,
    tabs: usize,
) -> WindowClick {
    if !click {
        WindowClick::Stay
    } else if on_close {
        WindowClick::Close
    } else {
        match button {
            Some(i) => if i < tabs {
                WindowClick::Tab(i)
            } else {
                WindowClick::Close
            },
            None => if !in_frame {
                WindowClick::Close
            } else {
                WindowClick::Stay
            },
        }
    }
}

/// Decides what a click on a tabbed window means.
pub fn tab_window_click(
    click: bool,
    on_close: bool,
    button: Option<usize>,
    in_frame: bool,
    tabs: usize,
) -> (r: WindowClick)
    ensures
        r == tab_window_click_spec(click, on_close, button, in_frame, tabs),
{
    if !click {
        WindowClick::Stay
    } else if on_close {
        WindowClick::Close
    } else {
        match button {
            Some(i) => if i < tabs {
                WindowClick::Tab(i)
            } else {
                WindowClick::Close
            },
            None => if !in_frame {
                WindowClick::Close
            } else {
                WindowClick::Stay
            },
        }
    }
}

/// What the advisor window asks the caller to do.
#[derive(Debug, Clone, Copy, PartialEq, Eq, Structural)]
pub enum AdvisorAction {
    Nothing,
    Close,
}

impl Advisor {
    /// Applies a click on the advisor window: a tab button opens that tab,
    /// anything that closes the window says so.
    pub fn click(&mut self, c: WindowClick) -> (r: AdvisorAction)
        ensures
            match c {
                WindowClick::Tab(i) => i < TAB_COUNT ==> final(self).tab == tab_at(i as int),
                _ => final(self).tab == old(self).tab,
            },
            match c {
                WindowClick::Tab(i) => (r == AdvisorAction::Close) == (i >= TAB_COUNT) && (i
                    >= TAB_COUNT ==> final(self).tab == old(self).tab),
                WindowClick::Close => r == AdvisorAction::Close,
                WindowClick::Stay => r == AdvisorAction::Nothing,
            },
    {
        match c {
            WindowClick::Tab(i) => match AdvisorTab::at(i) {
                Some(t) => {
                    self.go(t);
                    AdvisorAction::Nothing
                },
                None => AdvisorAction::Close,
            },
            WindowClick::Close => AdvisorAction::Close,
            WindowClick::Stay => AdvisorAction::Nothing,
        }
    }
}

/// The almanac's pages, in tab order.
#[derive(Debug, Clone, Copy, PartialEq, Eq, Structural)]
pub enum Page {
    Legend,
    World,
    Controls,
    Reading,
}

/// The number of almanac pages.
pub const PAGE_COUNT: usize = 4;

/// A page's tab index.
pub open spec fn page_idx(p: Page) -> int {
    match p {
        Page::Legend => 0,
        Page::World => 1,
        Page::Controls => 2,
        Page::Reading => 3,
    }
}

/// The page at a tab index (`0 <= i < 4`).
pub open spec fn page_at(i: int) -> Page {
    if i == 0 {
        Page::Legend
    } else if i == 1 {
        Page::World
    } else if i == 2 {
        Page::Controls
    } else {
        Page::Reading
    }
}

fn page_from(i: usize) -> (r: Option<Page>)
    ensures
        i < PAGE_COUNT ==> r == Some(page_at(i as int)),
        i >= PAGE_COUNT ==> r is None,
{
    if i == 0 {
        Some(Page::Legend)
    } else if i == 1 {
        Some(Page::World)
    } else if i == 2 {
        Some(Page::Controls)
    } else if i == 3 {
        Some(Page::Reading)
    } else {
        None
    }
}

impl Page {
    /// This page's tab index.
    pub fn idx(self) -> (r: usize)
        ensures
            r == page_idx(self),
    {
        match self {
            Page::Legend => 0,
            Page::World => 1,
            Page::Controls => 2,
            Page::Reading => 3,
        }
    }
}

/// What the almanac window asks the caller to do.
#[derive(Debug, Clone, Copy, PartialEq, Eq)]
pub enum AlmanacAction {
    Nothing,
    Close,
    Page(Page),
    /// Fly to (and select) a live example on the map, then close.
    Locate((u16, u16)),
}

/// Which almanac page is open. The scroll offset belongs to the window
/// that draws it; every page change starts that window back at the top.
#[derive(Debug, Clone, Copy)]
pub struct Almanac {
    pub page: Page,
}

impl Almanac {
    /// An almanac open on the legend.
    pub fn new() -> (r: Almanac)
        ensures
            r.page == Page::Legend,
    {
        Almanac { page: Page::Legend }
    }

    /// Switch to `page`.
    pub fn go(&mut self, page: Page)
        ensures
            final(self).page == page,
    {
        self.page = page;
    }

    /// Jump to a page by tab index; an index past the last page is ignored.
    pub fn go_idx(&mut self, i: usize)
        ensures
            i < PAGE_COUNT ==> final(self).page == page_at(i as int),
            i >= PAGE_COUNT ==> final(self).page == old(self).page,
    {
        match page_from(i) {
            Some(p) => self.go(p),
            None => {},
        }
    }

    /// Step `delta` pages along the tabs, wrapping at both ends.
    pub fn cycle(&mut self, delta: i32)
        ensures
            page_idx(final(self).page) == (page_idx(old(self).page) + delta as int) % (PAGE_COUNT as int),
    {
        let start = self.page.idx();
        let shifted: i64 = start as i64 + delta as i64 + 2147483648;
        let m: u64 = (shifted as u64) % 4;
        assert(m == (start + delta as int) % 4) by (nonlinear_arith)
            requires
                shifted == start + delta as int + 2147483648,
                shifted >= 0,
                m == (shifted as u64) % 4,
        ;
        self.page = page_from(m as usize).unwrap();
    }
}

/// The almanac's action for a frame: a clicked live legend entry wins;
/// then the window click (a tab opens its page).
pub fn almanac_action(pending: Option<(u16, u16)>, c: WindowClick) -> (r: AlmanacAction)
    ensures
        r == match pending {
            Some(cell) => AlmanacAction::Locate(cell),
            None => match c {
                WindowClick::Stay => AlmanacAction::Nothing,
                WindowClick::Close => AlmanacAction::Close,
                WindowClick::Tab(i) => if i < PAGE_COUNT {
                    AlmanacAction::Page(page_at(i as int))
                } else {
                    AlmanacAction::Close
                },
            },
        },
{
    match pending {
        Some(cell) => AlmanacAction::Locate(cell),
        None => match c {
            WindowClick::Stay => AlmanacAction::Nothing,
            WindowClick::Close => AlmanacAction::Close,
            WindowClick::Tab(i) => match page_from(i) {
                Some(p) => AlmanacAction::Page(p),
                None => AlmanacAction::Close,
            },
        },
    }
}

/// Cycling the almanac forward and back by the same amount returns to the
/// page one started from.
pub proof fn lemma_almanac_cycle_round_trip(i: int, delta: int)
    requires
        0 <= i < PAGE_COUNT,
    ensures
        (((i + delta) % 4) + (-delta)) % 4 == i,
{
    assert((((i + delta) % 4) + (-delta)) % 4 == i) by (nonlinear_arith)
        requires
            0 <= i < 4,
    ;
}

/// What the about window asks the caller to do.
#[derive(Debug, Clone, Copy, PartialEq, Eq, Structural)]
pub enum AboutAction {
    Nothing,
    Close,
}

/// A titled block of the About content.
#[derive(Debug, Clone)]
pub struct AboutSection {
    pub heading: &'static str,
    pub lines: Vec<String>,
}

/// The About content: the credits, the third-party licence notices the
/// bundled fonts and crates require, and the trademark disclaimer.
pub open spec fn about_spec() -> Seq<(Seq<char>, Seq<Seq<char>>)> {
    seq![
        (
            "Credits"@,
            seq![
                "Created by Jason Olmsted."@,
                "Built in collaboration with an Anthropic model."@,
                "Compass mark + the \"KuberNation\" scene: original art by Jason Olmsted."@,
                "World map: original procedural geometry \u{2014} no sprite assets are bundled."@,
            ],
        ),
        (
            "Third-party licenses"@,
            seq![
                "Fira Sans (Mozilla Foundation, Telefonica S.A.)"@,
                "    \u{2014} SIL Open Font License 1.1."@,
                "Liberation Serif & Liberation Mono (Red Hat; digitized data (c) Google)"@,
                "    \u{2014} SIL Open Font License 1.1."@,
                "Many open-source Rust crates \u{2014} mostly MIT / Apache-2.0, plus some"@,
                "    ISC, BSD-3-Clause, Zlib & Unicode-3.0 (the rustls/ring TLS stack)."@,
                "Full third-party notices: THIRD-PARTY-NOTICES.md (+ CREDITS.md, OFL.txt)."@,
            ],
        ),
        (
            "Trademark & inspiration"@,
            seq![
                "Kubernation is an independent, unaffiliated homage. It is not"@,
                "associated with, endorsed by, or sponsored by Take-Two Interactive"@,
                "Software, Inc., Firaxis Games, or the Civilization franchise."@,
                "\"Sid Meier's Civilization\" and \"Civ\" are trademarks of Take-Two"@,
                "Interactive, referenced only to describe this project's design"@,
                "inspiration."@,
            ],
        ),
    ]
}

/// The view of the About content.
pub open spec fn about_view(v: Seq<AboutSection>) -> Seq<(Seq<char>, Seq<Seq<char>>)> {
    v.map_values(|s: AboutSection| (s.heading@, s.lines@.map_values(|l: String| l@)))
}

fn strings(v: Vec<&str>) -> (r: Vec<String>)
    ensures
        r@.map_values(|l: String| l@) == v@.map_values(|l: &str| l@),
{
    let mut out: Vec<String> = Vec::new();
    let mut i: usize = 0;
    while i < v.len()
        invariant
            i <= v@.len(),
            out@.map_values(|l: String| l@) == v@.take(i as int).map_values(|l: &str| l@),
        decreases v.len() - i,
    {
        let ghost o = out@;
        out.push(String::from_str(v[i]));
        assert(out@.map_values(|l: String| l@) == o.map_values(|l: String| l@).push(v@[i as int]@));
        assert(v@.take(i + 1).map_values(|l: &str| l@) == v@.take(i as int).map_values(|l: &str| l@).push(v@[i as int]@));
        i = i + 1;
    }
    assert(v@.take(v@.len() as int) == v@);
    out
}

/// The full About content.
pub fn about_sections() -> (r: Vec<AboutSection>)
    ensures
        about_view(r@) == about_spec(),
{
    let credits = vec![
        "Created by Jason Olmsted.",
        "Built in collaboration with an Anthropic model.",
        "Compass mark + the \"KuberNation\" scene: original art by Jason Olmsted.",
        "World map: original procedural geometry \u{2014} no sprite assets are bundled.",
    ];
    let licenses = vec![
        "Fira Sans (Mozilla Foundation, Telefonica S.A.)",
        "    \u{2014} SIL Open Font License 1.1.",
        "Liberation Serif & Liberation Mono (Red Hat; digitized data (c) Google)",
        "    \u{2014} SIL Open Font License 1.1.",
        "Many open-source Rust crates \u{2014} mostly MIT / Apache-2.0, plus some",
        "    ISC, BSD-3-Clause, Zlib & Unicode-3.0 (the rustls/ring TLS stack).",
        "Full third-party notices: THIRD-PARTY-NOTICES.md (+ CREDITS.md, OFL.txt).",
    ];
    let trademark = vec![
        "Kubernation is an independent, unaffiliated homage. It is not",
        "associated with, endorsed by, or sponsored by Take-Two Interactive",
        "Software, Inc., Firaxis Games, or the Civilization franchise.",
        "\"Sid Meier's Civilization\" and \"Civ\" are trademarks of Take-Two",
        "Interactive, referenced only to describe this project's design",
        "inspiration.",
    ];
    assert(credits@.map_values(|l: &str| l@) =~= about_spec()[0].1);
    assert(licenses@.map_values(|l: &str| l@) =~= about_spec()[1].1);
    assert(trademark@.map_values(|l: &str| l@) =~= about_spec()[2].1);
    let r = vec![
        AboutSection { heading: "Credits", lines: strings(credits) },
        AboutSection { heading: "Third-party licenses", lines: strings(licenses) },
        AboutSection { heading: "Trademark & inspiration", lines: strings(trademark) },
    ];
    assert(about_view(r@) =~= about_spec());
    r
}

/// The resource browser's two modes.
#[derive(Debug, Clone, Copy, PartialEq, Eq, Structural)]
pub enum BrowseMode {
    /// Picking a kind from the discovered list.
    Pick,
    /// A table of one kind's objects.
    Table,
}

/// The resource browser's state. The scroll offset belongs to the window
/// that draws it; every mode change starts that window back at the top.
#[derive(Debug, Clone)]
pub struct Browser {
    pub mode: BrowseMode,
    /// The kind whose table is shown.
    pub kind_label: String,
}

impl Browser {
    /// A browser on the kind list.
    pub fn new() -> (r: Browser)
        ensures
            r.mode == BrowseMode::Pick,
            r.kind_label@ == Seq::<char>::empty(),
    {
        Browser { mode: BrowseMode::Pick, kind_label: String::new() }
    }

    /// Jumps straight to a kind's table.
    pub fn force_table(&mut self, label: String)
        ensures
            final(self).mode == BrowseMode::Table,
            final(self).kind_label == label,
    {
        self.kind_label = label;
        self.mode = BrowseMode::Table;
    }

    /// Esc: from a table, back to the kind list (`true` = stay open); from
    /// the kind list, ask to close (`false`).
    pub fn back(&mut self) -> (r: bool)
        ensures
            r == (old(self).mode == BrowseMode::Table),
            final(self).mode == BrowseMode::Pick,
            final(self).kind_label == old(self).kind_label,
    {
        match self.mode {
            BrowseMode::Table => {
                self.mode = BrowseMode::Pick;
                true
            },
            BrowseMode::Pick => false,
        }
    }
}

/// `kind ns/name`, or `kind name` for a cluster-scoped object.
pub fn title(kind: &str, namespace: &str, name: &str) -> (r: String)
    ensures
        r@ == if namespace@.len() == 0 {
            kind@ + " "@ + name@
        } else {
            kind@ + " "@ + namespace@ + "/"@ + name@
        },
{
    let mut s = String::new();
    push_str(&mut s, kind);
    push_str(&mut s, " ");
    if namespace.unicode_len() > 0 {
        push_str(&mut s, namespace);
        push_str(&mut s, "/");
    }
    push_str(&mut s, name);
    s
}

/// `s` cut to `max` characters, the last replaced by `mark` when it had to
/// be cut.
pub open spec fn cut_spec(s: Seq<char>, max: nat, mark: char) -> Seq<char> {
    if s.len() <= max {
        s
    } else {
        s.take(if max == 0 { 0 } else { max - 1 }).push(mark)
    }
}

fn cut(s: &str, max: usize, mark: char) -> (r: String)
    ensures
        r@ == cut_spec(s@, max as nat, mark),
{
    let n = s.unicode_len();
    if n <= max {
        return String::from_str(s);
    }
    let keep = if max == 0 { 0 } else { max - 1 };
    let mut out = String::new();
    let mut i: usize = 0;
    while i < keep
        invariant
            keep < n,
            n == s@.len(),
            i <= keep,
            out@ == s@.take(i as int),
        decreases keep - i,
    {
        assert(s@.take(i + 1) == s@.take(i as int).push(s@[i as int]));
        push_char(&mut out, s.get_char(i));
        i = i + 1;
    }
    push_char(&mut out, mark);
    out
}

/// `s` truncated to `max` characters, ending in `~` when it was cut.
pub fn truncate_str(s: &str, max: usize) -> (r: String)
    requires
        max > 0,
    ensures
        r@ == cut_spec(s@, max as nat, '~'),
        r@.len() <= max || r@ == s@,
{
    cut(s, max, '~')
}

/// `s` abbreviated to `max` characters, ending in an ellipsis when it was
/// cut.
pub fn abbrev(s: &str, max: usize) -> (r: String)
    ensures
        r@ == cut_spec(s@, max as nat, '\u{2026}'),
{
    cut(s, max, '\u{2026}')
}

/// The namespace filter of the world view.
#[derive(Debug, Clone)]
pub enum NamespaceFilter {
    All,
    /// Only these namespaces (sorted, distinct).
    Only(Vec<String>),
}

/// The namespace the charter opens on: the filter's namespace when it
/// names exactly one; else `default` when observed; else the first
/// observed namespace; else `default`.
pub open spec fn charter_focus_spec(filter: NamespaceFilter, observed: Seq<Seq<char>>) -> Seq<char> {
    let fallback = if observed.contains("default"@) {
        "default"@
    } else if observed.len() > 0 {
        observed[0]
    } else {
        "default"@
    };
    match filter {
        NamespaceFilter::Only(set) => if set@.len() == 1 {
            set@[0]@
        } else {
            fallback
        },
        NamespaceFilter::All => fallback,
    }
}

/// Chooses the namespace the charter opens on.
pub fn charter_focus_ns(filter: &NamespaceFilter, observed: &Vec<String>) -> (r: String)
    ensures
        r@ == charter_focus_spec(*filter, observed@.map_values(|s: String| s@)),
{
    match filter {
        NamespaceFilter::Only(set) => {
            if set.len() == 1 {
                return set[0].clone();
            }
        },
        NamespaceFilter::All => {},
    }
    let ghost names = observed@.map_values(|s: String| s@);
    let d = String::from_str("default");
    let mut i: usize = 0;
    while i < observed.len()
        invariant
            i <= observed@.len(),
            names == observed@.map_values(|s: String| s@),
            d@ == "default"@,
            forall|j: int| 0 <= j < i ==> names[j] != "default"@,
            match *filter {
                NamespaceFilter::Only(set) => set@.len() != 1,
                NamespaceFilter::All => true,
            },
        decreases observed.len() - i,
    {
        if observed[i] == d {
            assert(names[i as int] == "default"@);
            assert(names.contains("default"@));
            return d;
        }
        i = i + 1;
    }
    assert(!names.contains("default"@));
    if observed.len() > 0 {
        observed[0].clone()
    } else {
        d
    }
}

// --- the resource browser's text ----------------------------------------

/// `n` spaces.
pub open spec fn blanks(n: nat) -> Seq<char>
    decreases n,
{
    if n == 0 {
        Seq::empty()
    } else {
        blanks((n - 1) as nat).push(' ')
    }
}

/// `s` padded with spaces on the right to `width` characters.
pub open spec fn pad_right(s: Seq<char>, width: nat) -> Seq<char> {
    s + blanks(if s.len() < width { (width - s.len()) as nat } else { 0 })
}

/// The widest object name the table shows before clipping it.
pub const NAME_MAX: usize = 56;
/// The width of the name column.
pub const NAME_COLUMN: usize = 58;

/// A listed object's row: `ns/name` (or the bare name of a cluster-scoped
/// object), clipped with an ellipsis, padded to the name column, then the
/// object's age.
pub open spec fn browse_row_spec(namespace: Seq<char>, name: Seq<char>, age: Seq<char>) -> Seq<char> {
    let full = if namespace.len() == 0 {
        name
    } else {
        namespace + "/"@ + name
    };
    pad_right(cut_spec(full, NAME_MAX as nat, '\u{2026}'), NAME_COLUMN as nat) + age
}

/// A listed object's row text.
pub fn browse_row(namespace: &str, name: &str, age: &str) -> (r: String)
    ensures
        r@ == browse_row_spec(namespace@, name@, age@),
{
    let mut full = String::new();
    if namespace.unicode_len() > 0 {
        push_str(&mut full, namespace);
        push_str(&mut full, "/");
    }
    push_str(&mut full, name);
    proof {
        if namespace@.len() == 0 {
            assert(full@ =~= name@);
        }
    }
    let mut s = abbrev(full.as_str(), NAME_MAX);
    let n = s.unicode_len();
    let pad = if n < NAME_COLUMN {
        NAME_COLUMN - n
    } else {
        0
    };
    let ghost clipped = s@;
    let mut i: usize = 0;
    while i < pad
        invariant
            i <= pad,
            s@ == clipped + blanks(i as nat),
        decreases pad - i,
    {
        push_char(&mut s, ' ');
        i = i + 1;
    }
    push_str(&mut s, age);
    s
}

/// A kind's row in the picker, marking a cluster-scoped kind.
pub fn kind_row(label: &str, namespaced: bool) -> (r: String)
    ensures
        r@ == label@ + if namespaced {
            Seq::empty()
        } else {
            "  \u{b7}  cluster"@
        },
{
    let mut s = String::from_str(label);
    if !namespaced {
        push_str(&mut s, "  \u{b7}  cluster");
    }
    proof {
        if namespaced {
            assert(s@ =~= label@ + Seq::<char>::empty());
        }
    }
    s
}

/// Where a LIST stands, as the table shows it.
#[derive(Debug, Clone, PartialEq, Eq)]
pub enum ListState {
    /// In flight.
    Listing,
    Failed(String),
    /// Answered with no objects.
    Empty,
    /// Answered with this many objects; `truncated` when the server holds
    /// more.
    Rows { count: usize, truncated: bool },
}

/// The table's status line: in flight, failed, empty, or (for a capped
/// LIST) how many objects are shown; `None` when the rows say it all.
pub fn list_status(st: &ListState) -> (r: Option<String>)
    ensures
        match *st {
            ListState::Listing => r matches Some(m) && m@ == "listing\u{2026}"@,
            ListState::Failed(e) => r matches Some(m) && m@ == "could not list: "@ + e@,
            ListState::Empty => r matches Some(m) && m@ == "(no objects)"@,
            ListState::Rows { count, truncated } => if truncated {
                r matches Some(m) && m@ == "\u{2026} showing first "@ + crate::text::dec(count as nat)
                    + " (more on the server)"@
            } else {
                r is None
            },
        },
{
    match st {
        ListState::Listing => Some(String::from_str("listing\u{2026}")),
        ListState::Failed(e) => {
            let mut s = String::new();
            push_str(&mut s, "could not list: ");
            push_str(&mut s, e.as_str());
            Some(s)
        },
        ListState::Empty => Some(String::from_str("(no objects)")),
        ListState::Rows { count, truncated } => if *truncated {
            let mut s = String::new();
            push_str(&mut s, "\u{2026} showing first ");
            crate::text::push_dec(&mut s, *count as u64);
            push_str(&mut s, " (more on the server)");
            Some(s)
        } else {
            None
        },
    }
}

} // verus!
