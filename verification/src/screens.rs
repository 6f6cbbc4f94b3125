//! The terminal client's navigation and input routing: the screen stack,
//! which world a screen shows, and which handler a key press belongs to
//! while confirms, pickers and editors are open.

use vstd::prelude::*;
use crate::text::{dec, push_dec, push_str};

verus! {

/// Which observed cluster: the hot one, or the warm standby.
#[derive(Debug, Clone, Copy, PartialEq, Eq, Structural)]
pub enum ClusterId {
    Hot,
    Warm,
}

/// A full-screen view of the terminal client.
#[derive(Debug, Clone, Copy, PartialEq, Eq, Structural)]
pub enum Screen {
    WorldMap,
    Workloads,
    City,
    Node,
    Logs,
    /// The End-of-Turn review.
    Plan,
}

/// How deep the back-stack may grow before its oldest entry is dropped.
pub const MAX_SCREENS: usize = 8;

/// The back-stack of screens: never empty, at most eight deep.
#[derive(Debug, Clone)]
pub struct ScreenStack {
    pub screens: Vec<Screen>,
}

impl ScreenStack {
    /// The stack's invariant.
    pub open spec fn wf(&self) -> bool {
        0 < self.screens@.len() <= MAX_SCREENS
    }

    /// The screen on top.
    pub open spec fn top_spec(&self) -> Screen {
        self.screens@.last()
    }

    /// A stack holding only the map.
    pub fn new() -> (r: ScreenStack)
        ensures
            r.wf(),
            r.screens@ == seq![Screen::WorldMap],
    {
        ScreenStack { screens: vec![Screen::WorldMap] }
    }

    /// The screen currently shown.
    pub fn top(&self) -> (r: Screen)
        requires
            self.wf(),
        ensures
            r == self.top_spec(),
    {
        self.screens[self.screens.len() - 1]
    }

    /// Opens `s` on top (unless it is already on top), dropping the oldest
    /// entry once the stack is more than eight deep.
    pub fn push(&mut self, s: Screen)
        requires
            old(self).wf(),
        ensures
            final(self).wf(),
            final(self).screens@ == if old(self).top_spec() == s {
                old(self).screens@
            } else if old(self).screens@.len() < MAX_SCREENS {
                old(self).screens@.push(s)
            } else {
                old(self).screens@.push(s).subrange(1, MAX_SCREENS as int + 1)
            },
    {
        let n = self.screens.len();
        if self.screens[n - 1] != s {
            self.screens.push(s);
            if self.screens.len() > MAX_SCREENS {
                self.screens.remove(0);
                assert(self.screens@ =~= old(self).screens@.push(s).subrange(1, MAX_SCREENS as int + 1));
            }
        }
    }

    /// Goes back one screen (never past the last), returning the screen
    /// that was closed.
    pub fn pop(&mut self) -> (r: Option<Screen>)
        requires
            old(self).wf(),
        ensures
            final(self).wf(),
            old(self).screens@.len() > 1 ==> r == Some(old(self).top_spec()) && final(self).screens@
                == old(self).screens@.drop_last(),
            old(self).screens@.len() == 1 ==> r is None && final(self).screens@ == old(self).screens@,
    {
        if self.screens.len() > 1 {
            self.screens.pop()
        } else {
            None
        }
    }

    /// Returns to a home screen, forgetting the back-stack.
    pub fn go_home(&mut self, base: Screen)
        ensures
            final(self).wf(),
            final(self).screens@ == seq![base],
    {
        self.screens = vec![base];
    }
}

/// Pushing a screen and then going back returns to where one was (when
/// the screen was not already on top and the stack had room).
pub proof fn lemma_push_then_pop_returns(old_screens: Seq<Screen>, s: Screen)
    requires
        0 < old_screens.len() < MAX_SCREENS,
        old_screens.last() != s,
    ensures
        old_screens.push(s).drop_last() == old_screens,
        old_screens.push(s).last() == s,
{
    assert(old_screens.push(s).drop_last() =~= old_screens);
}

/// Which world a screen shows: detail screens remember the cluster they
/// were opened on, list and map screens follow the focus, and without a
/// warm world everything is the hot one.
pub open spec fn view_cluster_spec(
    screen: Screen,
    city: ClusterId,
    node: ClusterId,
    logs: ClusterId,
    focus: ClusterId,
    warm_present: bool,
) -> ClusterId {
    if !warm_present {
        ClusterId::Hot
    } else {
        match screen {
            Screen::City => city,
            Screen::Node => node,
            Screen::Logs => logs,
            _ => focus,
        }
    }
}

/// Which world a screen shows.
pub fn view_cluster(
    screen: Screen,
    city: ClusterId,
    node: ClusterId,
    logs: ClusterId,
    focus: ClusterId,
    warm_present: bool,
) -> (r: ClusterId)
    ensures
        r == view_cluster_spec(screen, city, node, logs, focus, warm_present),
{
    if !warm_present {
        return ClusterId::Hot;
    }
    match screen {
        Screen::City => city,
        Screen::Node => node,
        Screen::Logs => logs,
        _ => focus,
    }
}

/// Which map edge the cursor ran into.
#[derive(Debug, Clone, Copy, PartialEq, Eq, Structural)]
pub enum Edge {
    Left,
    Right,
    Top,
    Bottom,
}

/// The focus after the cursor runs into a map edge: with a warm world, the
/// hot map's right edge crosses to the warm one and the warm map's left
/// edge crosses back; every other edge keeps the focus.
pub fn focus_after_edge(edge: Edge, focus: ClusterId, warm_present: bool) -> (r: ClusterId)
    ensures
        r == if warm_present && edge == Edge::Right && focus == ClusterId::Hot {
            ClusterId::Warm
        } else if warm_present && edge == Edge::Left && focus == ClusterId::Warm {
            ClusterId::Hot
        } else {
            focus
        },
{
    if warm_present {
        match (edge, focus) {
            (Edge::Right, ClusterId::Hot) => ClusterId::Warm,
            (Edge::Left, ClusterId::Warm) => ClusterId::Hot,
            _ => focus,
        }
    } else {
        focus
    }
}

/// A key press, as far as routing distinguishes them.
#[derive(Debug, Clone, Copy, PartialEq, Eq, Structural)]
pub enum Key {
    Char(char),
    /// Ctrl held with a character.
    Ctrl(char),
    Enter,
    Esc,
    Backspace,
    Tab,
    Other,
}

/// The answer a key gives to a y/n confirm.
#[derive(Debug, Clone, Copy, PartialEq, Eq, Structural)]
pub enum ConfirmReply {
    Accept,
    Reject,
    Ignore,
}

/// `y` or Enter accepts, `n`, Esc or `q` backs out, anything else is
/// ignored.
pub open spec fn confirm_reply_spec(k: Key) -> ConfirmReply {
    match k {
        Key::Char(c) => if c == 'y' {
            ConfirmReply::Accept
        } else if c == 'n' || c == 'q' {
            ConfirmReply::Reject
        } else {
            ConfirmReply::Ignore
        },
        Key::Enter => ConfirmReply::Accept,
        Key::Esc => ConfirmReply::Reject,
        _ => ConfirmReply::Ignore,
    }
}

/// The answer a key gives to a y/n confirm.
pub fn confirm_reply(k: Key) -> (r: ConfirmReply)
    ensures
        r == confirm_reply_spec(k),
{
    match k {
        Key::Char(c) => if c == 'y' {
            ConfirmReply::Accept
        } else if c == 'n' || c == 'q' {
            ConfirmReply::Reject
        } else {
            ConfirmReply::Ignore
        },
        Key::Enter => ConfirmReply::Accept,
        Key::Esc => ConfirmReply::Reject,
        _ => ConfirmReply::Ignore,
    }
}

/// What the terminal client is doing that may claim a key first.
#[derive(Debug, Clone, Copy)]
pub struct Modes {
    pub pending_evict: bool,
    pub pending_commit: bool,
    pub help_open: bool,
    pub picker_open: bool,
    pub ns_picker_open: bool,
    pub attention_focused: bool,
    pub attention_expanded: bool,
    /// The log view is on top and its filter is being edited.
    pub log_filtering: bool,
    /// The city view is on top and its image editor is open.
    pub image_editing: bool,
    /// The screen on top.
    pub screen: Screen,
}

/// A command of the End-of-Turn review's own key map.
#[derive(Debug, Clone, Copy, PartialEq, Eq, Structural)]
pub enum PlanKey {
    Back,
    Home(Screen),
    Help,
    /// Handed to the review itself.
    Review,
}

/// A global command.
#[derive(Debug, Clone, Copy, PartialEq, Eq, Structural)]
pub enum GlobalKey {
    Quit,
    Help,
    OpenPlan,
    Home(Screen),
    NextConcern,
    ToggleAttention,
    FocusAttention,
    ContextPicker,
    NamespacePicker,
    /// Overlay 1, 2 or 3.
    Overlay(u8),
    Back,
    /// Handed to the screen on top.
    View,
}

/// Where a key press goes.
#[derive(Debug, Clone, Copy, PartialEq, Eq, Structural)]
pub enum Route {
    Quit,
    EvictConfirm(ConfirmReply),
    CommitConfirm(ConfirmReply),
    /// The help overlay swallows keys; `true` when this one closes it.
    Help(bool),
    Picker,
    NamespacePicker,
    /// The attention panel; `true` when the key unfocuses it.
    Attention(bool),
    LogFilter,
    ImageEdit,
    Plan(PlanKey),
    Global(GlobalKey),
}

/// The End-of-Turn review's key map.
pub open spec fn plan_key_spec(k: Key) -> PlanKey {
    match k {
        Key::Esc | Key::Backspace => PlanKey::Back,
        Key::Char(c) => if c == 't' {
            PlanKey::Back
        } else if c == 'm' {
            PlanKey::Home(Screen::WorldMap)
        } else if c == 'w' {
            PlanKey::Home(Screen::Workloads)
        } else if c == '?' {
            PlanKey::Help
        } else {
            PlanKey::Review
        },
        _ => PlanKey::Review,
    }
}

/// The global key map.
pub open spec fn global_key_spec(k: Key, attention_expanded: bool) -> GlobalKey {
    match k {
        Key::Char(c) => if c == 'q' {
            GlobalKey::Quit
        } else if c == '?' {
            GlobalKey::Help
        } else if c == 't' {
            GlobalKey::OpenPlan
        } else if c == 'm' {
            GlobalKey::Home(Screen::WorldMap)
        } else if c == 'w' {
            GlobalKey::Home(Screen::Workloads)
        } else if c == 'n' {
            GlobalKey::NextConcern
        } else if c == 'a' {
            GlobalKey::ToggleAttention
        } else if c == 'c' {
            GlobalKey::ContextPicker
        } else if c == 'N' {
            GlobalKey::NamespacePicker
        } else if c == '1' {
            GlobalKey::Overlay(1)
        } else if c == '2' {
            GlobalKey::Overlay(2)
        } else if c == '3' {
            GlobalKey::Overlay(3)
        } else {
            GlobalKey::View
        },
        Key::Tab => if attention_expanded {
            GlobalKey::FocusAttention
        } else {
            GlobalKey::View
        },
        Key::Esc | Key::Backspace => GlobalKey::Back,
        _ => GlobalKey::View,
    }
}

/// Where a key goes, in precedence order: Ctrl-C always quits; a pending
/// evict confirm, then a pending commit confirm, swallow every key; then
/// the help overlay, the pickers, the focused attention panel, the log
/// filter and image editors (every keystroke is text), the End-of-Turn
/// review's own map, and finally the global map.
pub open spec fn route_key_spec(m: Modes, k: Key) -> Route {
    if k == Key::Ctrl('c') {
        Route::Quit
    } else if m.pending_evict {
        Route::EvictConfirm(confirm_reply_spec(k))
    } else if m.pending_commit {
        Route::CommitConfirm(confirm_reply_spec(k))
    } else if m.help_open {
        Route::Help(k == Key::Char('?') || k == Key::Esc || k == Key::Char('q'))
    } else if m.picker_open {
        Route::Picker
    } else if m.ns_picker_open {
        Route::NamespacePicker
    } else if m.attention_focused {
        Route::Attention(k == Key::Tab || k == Key::Esc)
    } else if m.screen == Screen::Logs && m.log_filtering {
        Route::LogFilter
    } else if m.screen == Screen::City && m.image_editing {
        Route::ImageEdit
    } else if m.screen == Screen::Plan {
        Route::Plan(plan_key_spec(k))
    } else {
        Route::Global(global_key_spec(k, m.attention_expanded))
    }
}

fn plan_key(k: Key) -> (r: PlanKey)
    ensures
        r == plan_key_spec(k),
{
    match k {
        Key::Esc | Key::Backspace => PlanKey::Back,
        Key::Char(c) => if c == 't' {
            PlanKey::Back
        } else if c == 'm' {
            PlanKey::Home(Screen::WorldMap)
        } else if c == 'w' {
            PlanKey::Home(Screen::Workloads)
        } else if c == '?' {
            PlanKey::Help
        } else {
            PlanKey::Review
        },
        _ => PlanKey::Review,
    }
}

fn global_key(k: Key, attention_expanded: bool) -> (r: GlobalKey)
    ensures
        r == global_key_spec(k, attention_expanded),
{
    match k {
        Key::Char(c) => if c == 'q' {
            GlobalKey::Quit
        } else if c == '?' {
            GlobalKey::Help
        } else if c == 't' {
            GlobalKey::OpenPlan
        } else if c == 'm' {
            GlobalKey::Home(Screen::WorldMap)
        } else if c == 'w' {
            GlobalKey::Home(Screen::Workloads)
        } else if c == 'n' {
            GlobalKey::NextConcern
        } else if c == 'a' {
            GlobalKey::ToggleAttention
        } else if c == 'c' {
            GlobalKey::ContextPicker
        } else if c == 'N' {
            GlobalKey::NamespacePicker
        } else if c == '1' {
            GlobalKey::Overlay(1)
        } else if c == '2' {
            GlobalKey::Overlay(2)
        } else if c == '3' {
            GlobalKey::Overlay(3)
        } else {
            GlobalKey::View
        },
        Key::Tab => if attention_expanded {
            GlobalKey::FocusAttention
        } else {
            GlobalKey::View
        },
        Key::Esc | Key::Backspace => GlobalKey::Back,
        _ => GlobalKey::View,
    }
}

/// Routes a key press.
pub fn route_key(m: &Modes, k: Key) -> (r: Route)
    ensures
        r == route_key_spec(*m, k),
{
    if k == Key::Ctrl('c') {
        Route::Quit
    } else if m.pending_evict {
        Route::EvictConfirm(confirm_reply(k))
    } else if m.pending_commit {
        Route::CommitConfirm(confirm_reply(k))
    } else if m.help_open {
        Route::Help(k == Key::Char('?') || k == Key::Esc || k == Key::Char('q'))
    } else if m.picker_open {
        Route::Picker
    } else if m.ns_picker_open {
        Route::NamespacePicker
    } else if m.attention_focused {
        Route::Attention(k == Key::Tab || k == Key::Esc)
    } else if m.screen == Screen::Logs && m.log_filtering {
        Route::LogFilter
    } else if m.screen == Screen::City && m.image_editing {
        Route::ImageEdit
    } else if m.screen == Screen::Plan {
        Route::Plan(plan_key(k))
    } else {
        Route::Global(global_key(k, m.attention_expanded))
    }
}

/// A pending confirm is a gate: while it is up, no key reaches anything
/// else (Ctrl-C aside), and only its accept key can go ahead.
pub proof fn lemma_confirm_gates_every_key(m: Modes, k: Key)
    requires
        m.pending_evict || m.pending_commit,
        k != Key::Ctrl('c'),
    ensures
        route_key_spec(m, k) is EvictConfirm || route_key_spec(m, k) is CommitConfirm,
        (route_key_spec(m, k) == Route::EvictConfirm(ConfirmReply::Accept)
            || route_key_spec(m, k) == Route::CommitConfirm(ConfirmReply::Accept)) ==> (k
            == Key::Char('y') || k == Key::Enter),
{
}

/// Ctrl-C quits from anywhere.
pub proof fn lemma_ctrl_c_always_quits(m: Modes)
    ensures
        route_key_spec(m, Key::Ctrl('c')) == Route::Quit,
{
}

/// The flash after an eviction finished.
pub fn evicted_flash(result: Result<String, String>) -> (r: String)
    ensures
        match result {
            Ok(msg) => r@ == msg@,
            Err(e) => r@ == "evict failed: "@ + e@,
        },
{
    match result {
        Ok(msg) => msg,
        Err(e) => {
            let mut s = String::new();
            push_str(&mut s, "evict failed: ");
            push_str(&mut s, e.as_str());
            s
        },
    }
}

/// How many rows of a commit outcome succeeded.
pub open spec fn ok_count(rows: Seq<bool>) -> nat
    decreases rows.len(),
{
    if rows.len() == 0 {
        0
    } else {
        ok_count(rows.drop_last()) + if rows.last() {
            1nat
        } else {
            0nat
        }
    }
}

/// The flash after a commit finished: how many of the changes applied, or
/// that the dry-run blocked the whole turn.
pub fn committed_flash(applied: bool, rows_ok: &Vec<bool>) -> (r: String)
    ensures
        r@ == if applied {
            "committed "@ + dec(ok_count(rows_ok@)) + "/"@ + dec(rows_ok@.len()) + " change(s)"@
        } else {
            "commit blocked \u{2014} "@ + dec(rows_ok@.len()) + " change(s) failed dry-run"@
        },
{
    let mut s = String::new();
    if applied {
        let mut n: usize = 0;
        let mut i: usize = 0;
        while i < rows_ok.len()
            invariant
                i <= rows_ok@.len(),
                n == ok_count(rows_ok@.take(i as int)),
                n <= i,
            decreases rows_ok.len() - i,
        {
            assert(rows_ok@.take(i + 1).drop_last() == rows_ok@.take(i as int));
            if rows_ok[i] {
                n = n + 1;
            }
            i = i + 1;
        }
        assert(rows_ok@.take(rows_ok@.len() as int) == rows_ok@);
        push_str(&mut s, "committed ");
        push_dec(&mut s, n as u64);
        push_str(&mut s, "/");
        push_dec(&mut s, rows_ok.len() as u64);
        push_str(&mut s, " change(s)");
    } else {
        push_str(&mut s, "commit blocked \u{2014} ");
        push_dec(&mut s, rows_ok.len() as u64);
        push_str(&mut s, " change(s) failed dry-run");
    }
    s
}

/// Whether a finished log fetch is still wanted: only the tail for the
/// current open (its generation token) is shown; a stale one is dropped.
pub fn logs_current(generation: u64, current: u64) -> (r: bool)
    ensures
        r == (generation == current),
{
    generation == current
}

// --- acting on a request ------------------------------------------------

/// The world a request acts on: the one it came from, or the hot one when
/// no warm world is watched.
pub fn acting_cluster(source: ClusterId, warm_present: bool) -> (r: ClusterId)
    ensures
        r == if warm_present {
            source
        } else {
            ClusterId::Hot
        },
{
    if warm_present {
        source
    } else {
        ClusterId::Hot
    }
}

/// What an eviction request leads to.
#[derive(Debug, Clone, PartialEq, Eq)]
pub enum EvictGate {
    /// Raise the y/n confirm.
    Confirm,
    /// Say why not.
    Refuse(String),
}

/// The eviction gate: the confirm is raised only where the user may delete
/// pods; a denial or a failed permission check is said instead.
pub fn evict_gate(namespace: &str, permission: Result<bool, String>) -> (r: EvictGate)
    ensures
        match permission {
            Ok(true) => r == EvictGate::Confirm,
            Ok(false) => r matches EvictGate::Refuse(m) && m@ == "no permission to evict pods in "@
                + namespace@,
            Err(e) => r matches EvictGate::Refuse(m) && m@ == "permission check failed: "@ + e@,
        },
{
    match permission {
        Ok(true) => EvictGate::Confirm,
        Ok(false) => {
            let mut s = String::new();
            push_str(&mut s, "no permission to evict pods in ");
            push_str(&mut s, namespace);
            EvictGate::Refuse(s)
        },
        Err(e) => {
            let mut s = String::new();
            push_str(&mut s, "permission check failed: ");
            push_str(&mut s, e.as_str());
            EvictGate::Refuse(s)
        },
    }
}

/// Planning (staging a change, toggling a restart) applies to the hot
/// world only; a request from the warm one is refused with a reason.
pub fn planning_gate(source: ClusterId) -> (r: Result<(), String>)
    ensures
        source == ClusterId::Hot ==> r is Ok,
        source == ClusterId::Warm ==> (r matches Err(m) && m@ == "planning applies to the hot cluster only"@),
{
    match source {
        ClusterId::Hot => Ok(()),
        ClusterId::Warm => Err(String::from_str("planning applies to the hot cluster only")),
    }
}

/// Switching the hot context to the one already watched as warm is
/// refused.
pub fn switch_refusal(target: &str, warm_context: Option<&str>) -> (r: Option<String>)
    ensures
        match warm_context {
            Some(w) => if w@ == target@ {
                r matches Some(m) && m@ == "that context is already the warm cluster"@
            } else {
                r is None
            },
            None => r is None,
        },
{
    match warm_context {
        Some(w) => {
            let a = String::from_str(w);
            let b = String::from_str(target);
            if a == b {
                Some(String::from_str("that context is already the warm cluster"))
            } else {
                None
            }
        },
        None => None,
    }
}

/// How many staged changes would change something.
pub open spec fn appliable(noop: Seq<bool>) -> nat
    decreases noop.len(),
{
    if noop.len() == 0 {
        0
    } else {
        appliable(noop.drop_last()) + if noop.last() {
            0nat
        } else {
            1nat
        }
    }
}

/// The commit command raises the confirm only when some staged change
/// would change something; otherwise it says there is nothing to commit.
pub fn commit_gate(noop: &Vec<bool>) -> (r: Result<(), String>)
    ensures
        appliable(noop@) > 0 ==> r is Ok,
        appliable(noop@) == 0 ==> (r matches Err(m) && m@ == "nothing to commit"@),
{
    let mut i: usize = 0;
    let mut any = false;
    while i < noop.len()
        invariant
            i <= noop@.len(),
            any == (appliable(noop@.take(i as int)) > 0),
        decreases noop.len() - i,
    {
        assert(noop@.take(i + 1).drop_last() == noop@.take(i as int));
        if !noop[i] {
            any = true;
        }
        i = i + 1;
    }
    assert(noop@.take(noop@.len() as int) == noop@);
    if any {
        Ok(())
    } else {
        Err(String::from_str("nothing to commit"))
    }
}

/// The flash while a commit runs, or none when nothing is staged.
pub fn committing_flash(staged: usize) -> (r: Option<String>)
    ensures
        staged == 0 ==> r is None,
        staged > 0 ==> (r matches Some(m) && m@ == "committing "@ + dec(staged as nat) + " change(s) \u{2026}"@),
{
    if staged == 0 {
        return None;
    }
    let mut s = String::new();
    push_str(&mut s, "committing ");
    push_dec(&mut s, staged as u64);
    push_str(&mut s, " change(s) \u{2026}");
    Some(s)
}

// --- the End-of-Turn review --------------------------------------------

/// One staged change as the review lists it.
#[derive(Debug, Clone)]
pub struct PlanChange {
    pub target: String,
    pub field: String,
    pub from: String,
    pub to: String,
    /// Staging it would change nothing.
    pub noop: bool,
}

/// The review's header line, and whether it is the dim empty note.
pub fn plan_header(staged: usize) -> (r: (String, bool))
    ensures
        staged == 0 ==> r.0@ == "Nothing staged. Open a city or province and use its plan controls."@ && r.1,
        staged > 0 ==> r.0@ == dec(staged as nat) + " staged change(s) \u{2014} review before committing:"@
            && !r.1,
{
    if staged == 0 {
        (String::from_str("Nothing staged. Open a city or province and use its plan controls."), true)
    } else {
        let mut s = String::new();
        push_dec(&mut s, staged as u64);
        push_str(&mut s, " staged change(s) \u{2014} review before committing:");
        (s, false)
    }
}

/// A change's `field  from -> to` text, whether it is dimmed (a no-op),
/// and the no-op note.
pub fn plan_change_text(c: &PlanChange) -> (r: (String, bool, Option<&'static str>))
    ensures
        r.0@ == c.field@ + "  "@ + c.from@ + " -> "@ + c.to@,
        r.1 == c.noop,
        c.noop ==> (r.2 matches Some(n) && n@ == "(no change)"@),
        !c.noop ==> r.2 is None,
{
    let mut s = String::new();
    push_str(&mut s, c.field.as_str());
    push_str(&mut s, "  ");
    push_str(&mut s, c.from.as_str());
    push_str(&mut s, " -> ");
    push_str(&mut s, c.to.as_str());
    (s, c.noop, if c.noop { Some("(no change)") } else { None })
}

/// The line for the changes that did not fit.
pub fn plan_overflow(total: usize, shown: usize) -> (r: Option<String>)
    ensures
        shown < total ==> (r matches Some(m) && m@ == "+"@ + dec((total - shown) as nat) + " more"@),
        shown >= total ==> r is None,
{
    if shown < total {
        let mut s = String::new();
        push_str(&mut s, "+");
        push_dec(&mut s, (total - shown) as u64);
        push_str(&mut s, " more");
        Some(s)
    } else {
        None
    }
}

/// What a click on the review window asks for.
#[derive(Debug, Clone, Copy, PartialEq, Eq, Structural)]
pub enum PlanClick {
    Nothing,
    Close,
    DiscardAll,
    Unstage(usize),
}

/// A click on the review: a row's unstage button wins; then the close box,
/// the Discard all button (the first) or the Close button, or a click
/// outside the window, which closes it.
pub fn plan_click(
    click: bool,
    unstage: Option<usize>,
    on_close: bool,
    button: Option<usize>,
    in_frame: bool,
) -> (r: PlanClick)
    ensures
        r == if !click {
            PlanClick::Nothing
        } else {
            match unstage {
                Some(i) => PlanClick::Unstage(i),
                None => if on_close {
                    PlanClick::Close
                } else {
                    match button {
                        Some(b) => if b == 0 {
                            PlanClick::DiscardAll
                        } else {
                            PlanClick::Close
                        },
                        None => if !in_frame {
                            PlanClick::Close
                        } else {
                            PlanClick::Nothing
                        },
                    }
                },
            }
        },
{
    if !click {
        return PlanClick::Nothing;
    }
    match unstage {
        Some(i) => PlanClick::Unstage(i),
        None => if on_close {
            PlanClick::Close
        } else {
            match button {
                Some(b) => if b == 0 {
                    PlanClick::DiscardAll
                } else {
                    PlanClick::Close
                },
                None => if !in_frame {
                    PlanClick::Close
                } else {
                    PlanClick::Nothing
                },
            }
        },
    }
}

// --- the terminal layout and its confirms ------------------------------

/// The map screen carries the side column only when the terminal is wide
/// enough: 150 columns for a paired session, 110 otherwise.
pub fn sidebar_fits(width: u16, paired: bool) -> (r: bool)
    ensures
        r == (width >= if paired { 150u16 } else { 110u16 }),
{
    width >= if paired { 150 } else { 110 }
}

/// The terminal evict confirm's title and lines.
pub fn evict_confirm_text(namespace: &str, pod: &str) -> (r: (&'static str, Vec<String>))
    ensures
        r.0@ == " Evict pod? "@,
        r.1@.map_values(|l: String| l@) == seq![
            Seq::<char>::empty(),
            "  "@ + namespace@ + "/"@ + pod@,
            Seq::<char>::empty(),
            "  Deletes the pod from the cluster now."@,
            "  A managed pod is recreated; a bare pod is gone."@,
            Seq::<char>::empty(),
            "  [y] evict     [n] cancel"@,
        ],
{
    let mut who = String::new();
    push_str(&mut who, "  ");
    push_str(&mut who, namespace);
    push_str(&mut who, "/");
    push_str(&mut who, pod);
    let v = vec![
        String::new(),
        who,
        String::new(),
        String::from_str("  Deletes the pod from the cluster now."),
        String::from_str("  A managed pod is recreated; a bare pod is gone."),
        String::new(),
        String::from_str("  [y] evict     [n] cancel"),
    ];
    assert(v@.map_values(|l: String| l@) =~= seq![
        Seq::<char>::empty(),
        "  "@ + namespace@ + "/"@ + pod@,
        Seq::<char>::empty(),
        "  Deletes the pod from the cluster now."@,
        "  A managed pod is recreated; a bare pod is gone."@,
        Seq::<char>::empty(),
        "  [y] evict     [n] cancel"@,
    ]);
    (" Evict pod? ", v)
}

/// The terminal commit confirm's title and lines.
pub fn commit_confirm_text(n: usize) -> (r: (&'static str, Vec<String>))
    ensures
        r.0@ == " Commit planning turn? "@,
        r.1@.map_values(|l: String| l@) == seq![
            Seq::<char>::empty(),
            "  Commit "@ + dec(n as nat) + " staged change(s) to the cluster?"@,
            Seq::<char>::empty(),
            "  Each is server-side dry-run validated first (which also"@,
            "  enforces RBAC); only if all pass are they applied."@,
            Seq::<char>::empty(),
            "  [y] commit     [n] cancel"@,
        ],
{
    let mut what = String::new();
    push_str(&mut what, "  Commit ");
    push_dec(&mut what, n as u64);
    push_str(&mut what, " staged change(s) to the cluster?");
    let v = vec![
        String::new(),
        what,
        String::new(),
        String::from_str("  Each is server-side dry-run validated first (which also"),
        String::from_str("  enforces RBAC); only if all pass are they applied."),
        String::new(),
        String::from_str("  [y] commit     [n] cancel"),
    ];
    assert(v@.map_values(|l: String| l@) =~= seq![
        Seq::<char>::empty(),
        "  Commit "@ + dec(n as nat) + " staged change(s) to the cluster?"@,
        Seq::<char>::empty(),
        "  Each is server-side dry-run validated first (which also"@,
        "  enforces RBAC); only if all pass are they applied."@,
        Seq::<char>::empty(),
        "  [y] commit     [n] cancel"@,
    ]);
    (" Commit planning turn? ", v)
}

/// A paired map half's banner: the cursor on the focused side, the
/// world's label and its context.
pub fn banner_text(label: &str, focused: bool, context: &str) -> (r: String)
    ensures
        r@ == " "@ + (if focused {
            "\u{25b6}"@
        } else {
            " "@
        }) + " "@ + label@ + " \u{2014} "@ + context@,
{
    let mut s = String::new();
    push_str(&mut s, " ");
    if focused {
        push_str(&mut s, "\u{25b6}");
    } else {
        push_str(&mut s, " ");
    }
    push_str(&mut s, " ");
    push_str(&mut s, label);
    push_str(&mut s, " \u{2014} ");
    push_str(&mut s, context);
    s
}

/// The platform a world is shown as: the one already known, else the
/// first a node's provider ID names.
pub fn refined_platform<T: Copy>(known: Option<T>, from_nodes: &Vec<Option<T>>) -> (r: Option<T>)
    ensures
        known is Some ==> r == known,
        known is None ==> match r {
            Some(p) => exists|i: int|
                0 <= i < from_nodes@.len() && from_nodes@[i] == Some(p) && forall|j: int|
                    0 <= j < i ==> (#[trigger] from_nodes@[j]) is None,
            None => forall|i: int| 0 <= i < from_nodes@.len() ==> (#[trigger] from_nodes@[i]) is None,
        },
{
    if known.is_some() {
        return known;
    }
    let mut i: usize = 0;
    while i < from_nodes.len()
        invariant
            known is None,
            i <= from_nodes@.len(),
            forall|j: int| 0 <= j < i ==> (#[trigger] from_nodes@[j]) is None,
        decreases from_nodes.len() - i,
    {
        match from_nodes[i] {
            Some(p) => {
                assert(from_nodes@[i as int] == Some(p));
                return Some(p);
            },
            None => {},
        }
        i = i + 1;
    }
    None
}

} // verus!
