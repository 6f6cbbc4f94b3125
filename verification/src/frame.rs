//! One frame of the map window's keyboard handling: which window a key
//! opens or closes, what blocks it, the order in which Esc closes things,
//! and the commands the frame hands to the caller. The caller reads the
//! keys and the few facts about the world below, calls [`frame_input`],
//! and carries out the commands in order.
//!
//! The stages run in a fixed order within the frame, each seeing what the
//! earlier ones changed: quit, the almanac key, the end-of-turn key, the
//! resource browser, the inspector, Esc, the log overlay's own keys, the
//! two pickers, the open windows' keys, map movement, map navigation, the
//! concern log jump and the blast-radius toggle.

use vstd::prelude::*;

verus! {

/// Which windows and prompts are open, and whether the user is typing.
#[derive(Debug, Clone, Copy, PartialEq, Eq, Structural)]
pub struct GuiModes {
    /// A city or province window is open.
    pub panel: bool,
    pub almanac: bool,
    pub advisor: bool,
    pub charter: bool,
    /// The read-only YAML inspector.
    pub inspector: bool,
    /// The resource browser.
    pub browser: bool,
    /// The browser shows one kind's table (Esc backs out to the kind list).
    pub browser_table: bool,
    /// The chaos drill console.
    pub chaos: bool,
    /// A drill awaits its confirm.
    pub pending_chaos: bool,
    /// The staged turn awaits its commit confirm.
    pub pending_commit: bool,
    /// A pod awaits its evict confirm.
    pub pending_evict: bool,
    /// The End-of-Turn review.
    pub plan_open: bool,
    /// The context picker.
    pub picker: bool,
    /// The namespace-filter picker.
    pub ns_picker: bool,
    /// A menu-bar dropdown is open.
    pub menu_open: bool,
    /// The log overlay.
    pub log_open: bool,
    /// The log overlay's filter editor has the keyboard.
    pub log_filter_active: bool,
    /// The city window's image field has the keyboard.
    pub image_edit: bool,
}

/// This frame's key presses, and the facts about the world the keys
/// depend on.
#[derive(Debug, Clone, Copy, PartialEq, Eq, Structural)]
pub struct FrameKeys {
    /// `Q`.
    pub q: bool,
    /// The window's close button.
    pub close_requested: bool,
    /// `F1`.
    pub f1: bool,
    /// `/`.
    pub slash: bool,
    /// A `:` character was typed.
    pub colon: bool,
    pub escape: bool,
    pub enter: bool,
    /// `J` or Down.
    pub down: bool,
    /// `K` or Up.
    pub up: bool,
    /// Left arrow.
    pub left: bool,
    /// Right arrow.
    pub right: bool,
    /// The page/tab digit pressed (`1` to `4` as 0 to 3), if any.
    pub digit: Option<u8>,
    pub b: bool,
    pub c: bool,
    pub f: bool,
    pub g: bool,
    pub l: bool,
    pub n: bool,
    pub p: bool,
    pub s: bool,
    pub t: bool,
    pub w: bool,
    pub y: bool,
    /// `]`.
    pub next_city: bool,
    /// `[`.
    pub prev_city: bool,
    /// A world snapshot has arrived.
    pub synced: bool,
    /// The attention list is not empty.
    pub has_attention: bool,
    /// The kubeconfig lists at least one context.
    pub has_contexts: bool,
    /// The open city or province window's object has a YAML document.
    pub panel_has_yaml: bool,
    /// The focused concern names a pod whose logs can be tailed.
    pub tail_target: bool,
}

/// What the frame asks the caller to do, in order.
#[derive(Debug, Clone, Copy, PartialEq, Eq, Structural)]
pub enum GuiCommand {
    /// Quit (after undoing a live, restorable drill).
    Quit,
    /// Esc with nothing open: leave the window loop.
    Exit,
    /// The browser opened: ask for the resource kinds if they are not known.
    OpenBrowser,
    /// Drop the browser's in-flight listing.
    ClearBrowse,
    /// Open the inspector on the open window's YAML.
    Inspect,
    /// Stop tailing logs.
    ClearLogs,
    /// Typed characters and Backspace edit the log filter this frame.
    EditLogFilter,
    LogPrevious,
    LogTimestamps,
    LogWindow,
    LogCopy,
    LogExport,
    LogScrollDown,
    LogScrollUp,
    LogTop,
    LogFollow,
    /// The log overlay is closed: its next opening starts at the tail.
    LogRewind,
    PickerNext,
    PickerPrev,
    /// Switch the hot cluster to the picked context and clear the selection.
    SwitchContext,
    NsPickerNext,
    NsPickerPrev,
    /// Apply the picked namespace filter.
    SetNamespaceFilter,
    /// Open almanac page `i`.
    AlmanacGo(u8),
    /// Step the almanac page (`true` = forward).
    AlmanacStep(bool),
    /// Open advisor tab `i`.
    AdvisorGo(u8),
    /// Step the advisor tab (`true` = forward).
    AdvisorStep(bool),
    InspectorCopy,
    InspectorExport,
    /// Pan and zoom input (keys, drag, wheel) moves the map this frame.
    MoveMap,
    FitView,
    /// The context picker opened: put its cursor on the current context.
    OpenPicker,
    SailNext,
    SailPrev,
    NextConcern,
    /// Open the selected cell's window.
    OpenSelection,
    /// Tail the focused concern's pod.
    TailConcern,
    /// The focused concern has no pod to tail: say so.
    NoPodToast,
    ToggleBlast,
}

/// A frame's state between stages.
pub type Step = (GuiModes, Seq<GuiCommand>);

/// The user is typing (the log filter or the image field), judged at the
/// frame's start.
pub open spec fn typing(m: GuiModes) -> bool {
    (m.log_open && m.log_filter_active) || m.image_edit
}

/// Q (unless typing) or the close button asks to quit.
pub open spec fn stage_quit(st: Step, m0: GuiModes, k: FrameKeys) -> Step {
    if (k.q && !typing(m0)) || k.close_requested {
        (st.0, st.1.push(GuiCommand::Quit))
    } else {
        st
    }
}

/// F1 or `/` toggles the almanac, unless the log overlay, typing or
/// another reference window has the keyboard.
pub open spec fn stage_almanac(st: Step, m0: GuiModes, k: FrameKeys) -> Step {
    let m = st.0;
    if (k.f1 || k.slash) && !m.log_open && !typing(m0) && !m.advisor && !m.charter && !m.chaos
        && !m.browser {
        (GuiModes { almanac: !m.almanac, ..m }, st.1)
    } else {
        st
    }
}

/// `t` toggles the End-of-Turn review once the world has synced, unless a
/// window or picker is open.
pub open spec fn stage_plan(st: Step, k: FrameKeys) -> Step {
    let m = st.0;
    if k.t && k.synced && !m.panel && !m.almanac && !m.advisor && !m.charter && !m.chaos
        && !m.browser && !m.picker && !m.ns_picker {
        (GuiModes { plan_open: !m.plan_open, ..m }, st.1)
    } else {
        st
    }
}

/// Nothing but the bare map has the keyboard.
pub open spec fn map_input_free(m: GuiModes, m0: GuiModes) -> bool {
    !typing(m0) && !m.log_open && !m.panel && !m.browser && !m.inspector && !m.almanac
        && !m.advisor && !m.charter && !m.chaos && !m.plan_open && !m.picker && !m.ns_picker
        && !m.menu_open && !m.pending_evict && !m.pending_commit && !m.pending_chaos
}

/// `:` on the bare map opens the resource browser on its kind list.
pub open spec fn stage_browser(st: Step, m0: GuiModes, k: FrameKeys) -> Step {
    let m = st.0;
    if map_input_free(m, m0) && k.colon {
        (GuiModes { browser: true, browser_table: false, ..m }, st.1.push(GuiCommand::OpenBrowser))
    } else {
        st
    }
}

/// `y` inspects the open window's object, unless typing, the log overlay,
/// another window or a prompt is up.
pub open spec fn stage_inspect(st: Step, m0: GuiModes, k: FrameKeys) -> Step {
    let m = st.0;
    if k.y && !typing(m0) && !m.log_open && !m.inspector && !m.almanac && !m.advisor
        && !m.charter && !m.chaos && !m.browser && !m.plan_open && !m.pending_evict
        && !m.pending_commit && !m.pending_chaos && k.synced && k.panel_has_yaml {
        (GuiModes { inspector: true, ..m }, st.1.push(GuiCommand::Inspect))
    } else {
        st
    }
}

/// Esc closes exactly one thing, the topmost in this order: the drill
/// confirm, the commit confirm, the evict confirm, the drill console, the
/// almanac, the advisor, the charter, the inspector, the browser (a table
/// backs out to the kind list first), the End-of-Turn review, the namespace
/// picker, the context picker, the log filter editor, the log overlay, the
/// image editor, a menu dropdown, the open window; with nothing open it
/// leaves the loop.
pub open spec fn escape_step(m: GuiModes) -> Step {
    let none = Seq::<GuiCommand>::empty();
    if m.pending_chaos {
        (GuiModes { pending_chaos: false, ..m }, none)
    } else if m.pending_commit {
        (GuiModes { pending_commit: false, ..m }, none)
    } else if m.pending_evict {
        (GuiModes { pending_evict: false, ..m }, none)
    } else if m.chaos {
        (GuiModes { chaos: false, ..m }, none)
    } else if m.almanac {
        (GuiModes { almanac: false, ..m }, none)
    } else if m.advisor {
        (GuiModes { advisor: false, ..m }, none)
    } else if m.charter {
        (GuiModes { charter: false, ..m }, none)
    } else if m.inspector {
        (GuiModes { inspector: false, ..m }, none)
    } else if m.browser {
        if m.browser_table {
            (GuiModes { browser_table: false, ..m }, seq![GuiCommand::ClearBrowse])
        } else {
            (GuiModes { browser: false, ..m }, seq![GuiCommand::ClearBrowse])
        }
    } else if m.plan_open {
        (GuiModes { plan_open: false, ..m }, none)
    } else if m.ns_picker {
        (GuiModes { ns_picker: false, ..m }, none)
    } else if m.picker {
        (GuiModes { picker: false, ..m }, none)
    } else if m.log_open && m.log_filter_active {
        (GuiModes { log_filter_active: false, ..m }, none)
    } else if m.log_open {
        (GuiModes { log_open: false, ..m }, seq![GuiCommand::ClearLogs])
    } else if m.image_edit {
        (GuiModes { image_edit: false, ..m }, none)
    } else if m.menu_open {
        (GuiModes { menu_open: false, ..m }, none)
    } else if m.panel {
        (GuiModes { panel: false, ..m }, none)
    } else {
        (m, seq![GuiCommand::Exit])
    }
}

/// Nothing Esc could close is open.
pub open spec fn nothing_open(m: GuiModes) -> bool {
    !m.pending_chaos && !m.pending_commit && !m.pending_evict && !m.chaos && !m.almanac
        && !m.advisor && !m.charter && !m.inspector && !m.browser && !m.plan_open && !m.ns_picker
        && !m.picker && !m.log_open && !m.image_edit && !m.menu_open && !m.panel
}

/// Esc leaves the window loop exactly when nothing is open; otherwise it
/// closes one thing and leaves every confirm below the topmost untouched.
pub proof fn lemma_escape_leaves_only_from_the_bare_map(m: GuiModes)
    ensures
        escape_step(m).1 =~= seq![GuiCommand::Exit] <==> nothing_open(m),
        nothing_open(m) ==> escape_step(m).0 == m,
        m.pending_chaos ==> escape_step(m).0 == (GuiModes { pending_chaos: false, ..m }),
        !m.pending_chaos && m.pending_commit ==> escape_step(m).0 == (GuiModes {
            pending_commit: false,
            ..m
        }),
{
    if !nothing_open(m) {
        let c = escape_step(m).1;
        if c.len() == 1 {
            assert(c[0] != GuiCommand::Exit);
        }
    }
}

pub open spec fn stage_escape(st: Step, k: FrameKeys) -> Step {
    if k.escape {
        let e = escape_step(st.0);
        (e.0, st.1 + e.1)
    } else {
        st
    }
}

/// `c` when `b`, as a command list.
pub open spec fn when(b: bool, c: GuiCommand) -> Seq<GuiCommand> {
    if b {
        seq![c]
    } else {
        Seq::empty()
    }
}

/// The log overlay's commands for this frame's keys, in order, after `o`.
pub open spec fn log_keys_spec(o: Seq<GuiCommand>, k: FrameKeys) -> Seq<GuiCommand> {
    let o1 = o + when(k.p, GuiCommand::LogPrevious);
    let o2 = o1 + when(k.t, GuiCommand::LogTimestamps);
    let o3 = o2 + when(k.s, GuiCommand::LogWindow);
    let o4 = o3 + when(k.c, GuiCommand::LogCopy);
    let o5 = o4 + when(k.w, GuiCommand::LogExport);
    let o6 = o5 + when(k.down, GuiCommand::LogScrollDown);
    let o7 = o6 + when(k.up, GuiCommand::LogScrollUp);
    let o8 = o7 + when(k.g, GuiCommand::LogTop);
    o8 + when(k.f, GuiCommand::LogFollow)
}

/// The log overlay's own keys. While the filter editor is open, typing
/// edits it and Enter leaves it; otherwise `/` opens the editor, `p`
/// previous container, `T` timestamps, `s` history window, `c` copy, `w`
/// export, `j`/`k` scroll, `g` top, `f` follow. With the overlay closed,
/// its next opening starts at the tail.
pub open spec fn stage_log(st: Step, k: FrameKeys) -> Step {
    let m = st.0;
    if m.log_open {
        if m.log_filter_active {
            (
                GuiModes { log_filter_active: !k.enter, ..m },
                st.1.push(GuiCommand::EditLogFilter),
            )
        } else {
            (GuiModes { log_filter_active: k.slash, ..m }, log_keys_spec(st.1, k))
        }
    } else {
        (m, st.1.push(GuiCommand::LogRewind))
    }
}

/// The context picker swallows navigation: `c` closes it; with contexts
/// listed, `j`/`k` move its cursor and Enter switches the hot cluster,
/// closing the picker, the open window and the log overlay.
pub open spec fn stage_picker(st: Step, k: FrameKeys) -> Step {
    let m = st.0;
    if !m.picker {
        st
    } else if k.c {
        (GuiModes { picker: false, ..m }, st.1)
    } else if k.has_contexts {
        let moved = st.1 + when(k.down, GuiCommand::PickerNext) + when(k.up, GuiCommand::PickerPrev);
        if k.enter {
            (
                GuiModes { picker: false, panel: false, log_open: false, ..m },
                moved.push(GuiCommand::SwitchContext).push(GuiCommand::ClearLogs),
            )
        } else {
            (m, moved)
        }
    } else {
        st
    }
}

/// The namespace picker: `j`/`k` move its cursor, Enter applies the filter
/// and closes it.
pub open spec fn stage_ns_picker(st: Step, k: FrameKeys) -> Step {
    let m = st.0;
    if !m.ns_picker {
        st
    } else {
        let moved = st.1 + when(k.down, GuiCommand::NsPickerNext) + when(
            k.up,
            GuiCommand::NsPickerPrev,
        );
        if k.enter {
            (GuiModes { ns_picker: false, ..m }, moved.push(GuiCommand::SetNamespaceFilter))
        } else {
            (m, moved)
        }
    }
}

/// The page digit as a command for the open almanac (or advisor).
pub open spec fn digit_cmds_spec(go: bool, almanac: bool, digit: Option<u8>) -> Seq<GuiCommand> {
    if go {
        match digit {
            Some(d) => if d < 4 {
                seq![if almanac {
                    GuiCommand::AlmanacGo(d)
                } else {
                    GuiCommand::AdvisorGo(d)
                }]
            } else {
                Seq::empty()
            },
            None => Seq::empty(),
        }
    } else {
        Seq::empty()
    }
}

/// The open windows' commands for this frame's keys, in order, after `o`.
pub open spec fn window_keys_spec(o: Seq<GuiCommand>, m: GuiModes, k: FrameKeys) -> Seq<GuiCommand> {
    let o1 = o + digit_cmds_spec(m.almanac, true, k.digit);
    let o2 = o1 + when(m.almanac && k.left, GuiCommand::AlmanacStep(false));
    let o3 = o2 + when(m.almanac && k.right, GuiCommand::AlmanacStep(true));
    let o4 = o3 + digit_cmds_spec(m.advisor, false, k.digit);
    let o5 = o4 + when(m.advisor && k.left, GuiCommand::AdvisorStep(false));
    let o6 = o5 + when(m.advisor && k.right, GuiCommand::AdvisorStep(true));
    let o7 = o6 + when(m.inspector && k.c, GuiCommand::InspectorCopy);
    o7 + when(m.inspector && k.w, GuiCommand::InspectorExport)
}

/// The open reference windows' keys: the almanac and the advisor take a
/// page digit and Left/Right; the inspector takes `c` (copy) and `w`
/// (export).
pub open spec fn stage_windows(st: Step, k: FrameKeys) -> Step {
    let m = st.0;
    (m, window_keys_spec(st.1, m, k))
}

/// Pan and zoom move the map unless a picker, a window (as open at the
/// frame's start), the review, a dropdown or the log overlay is up.
pub open spec fn stage_move(st: Step, m0: GuiModes) -> Step {
    let m = st.0;
    if !m.picker && !m.ns_picker && !m.almanac && !m.advisor && !m.charter && !m.chaos
        && !m.browser && !m0.panel && !m.plan_open && !m.menu_open && !m.log_open {
        (m, st.1.push(GuiCommand::MoveMap))
    } else {
        st
    }
}

/// Map navigation, once synced and with nothing open over the map: `F`
/// fits the view, `C` opens the context picker, `]`/`[` sail between
/// cities, `N` flies to the next concern, Enter opens the selection.
pub open spec fn stage_nav(st: Step, m0: GuiModes, k: FrameKeys) -> Step {
    let m = st.0;
    if !k.synced || m.picker || m.ns_picker || m.almanac || m.advisor || m.charter || m.chaos
        || m.pending_chaos || m.browser || m0.panel || m.plan_open || m.menu_open || m.log_open {
        st
    } else {
        let opens = k.c && k.has_contexts;
        (
            GuiModes { picker: opens, ..m },
            st.1 + when(k.f, GuiCommand::FitView) + when(opens, GuiCommand::OpenPicker) + when(
                k.next_city || k.prev_city,
                if k.next_city {
                    GuiCommand::SailNext
                } else {
                    GuiCommand::SailPrev
                },
            ) + when(k.n && k.has_attention, GuiCommand::NextConcern) + when(
                k.enter,
                GuiCommand::OpenSelection,
            ),
        )
    }
}

/// No window, picker, review, dropdown or prompt holds the keyboard
/// (windows as they now stand; typing as at the frame's start).
pub open spec fn overlay_free(m: GuiModes, m0: GuiModes) -> bool {
    !typing(m0) && !m.log_open && !m.picker && !m.ns_picker && !m.almanac && !m.advisor
        && !m.charter && !m.chaos && !m.browser && !m.inspector && !m.plan_open && !m.menu_open
        && !m.pending_evict && !m.pending_commit && !m.pending_chaos
}

/// `L` tails the focused concern's pod (even with a window open), or says
/// it has none.
pub open spec fn stage_tail(st: Step, m0: GuiModes, k: FrameKeys) -> Step {
    let m = st.0;
    if k.synced && k.l && k.has_attention && overlay_free(m, m0) {
        if k.tail_target {
            (
                GuiModes { log_open: true, log_filter_active: false, ..m },
                st.1.push(GuiCommand::TailConcern),
            )
        } else {
            (m, st.1.push(GuiCommand::NoPodToast))
        }
    } else {
        st
    }
}

/// `B` toggles the blast-radius overlay when nothing holds the keyboard
/// and no window was open at the frame's start.
pub open spec fn stage_blast(st: Step, m0: GuiModes, k: FrameKeys) -> Step {
    if k.synced && k.b && overlay_free(st.0, m0) && !m0.panel {
        (st.0, st.1.push(GuiCommand::ToggleBlast))
    } else {
        st
    }
}

/// One frame: every stage in order, starting from `m` with no commands.
pub open spec fn frame_input_spec(m: GuiModes, k: FrameKeys) -> Step {
    let s0: Step = (m, Seq::empty());
    let s1 = stage_quit(s0, m, k);
    let s2 = stage_almanac(s1, m, k);
    let s3 = stage_plan(s2, k);
    let s4 = stage_browser(s3, m, k);
    let s5 = stage_inspect(s4, m, k);
    let s6 = stage_escape(s5, k);
    let s7 = stage_log(s6, k);
    let s8 = stage_picker(s7, k);
    let s9 = stage_ns_picker(s8, k);
    let s10 = stage_windows(s9, k);
    let s11 = stage_move(s10, m);
    let s12 = stage_nav(s11, m, k);
    let s13 = stage_tail(s12, m, k);
    stage_blast(s13, m, k)
}

fn push_when(out: &mut Vec<GuiCommand>, b: bool, c: GuiCommand)
    ensures
        final(out)@ == old(out)@ + when(b, c),
{
    if b {
        out.push(c);
    }
    proof {
        if b {
            assert(old(out)@.push(c) =~= old(out)@ + seq![c]);
        } else {
            assert(old(out)@ =~= old(out)@ + Seq::<GuiCommand>::empty());
        }
    }
}

fn escape_exec(m: GuiModes, out: &mut Vec<GuiCommand>) -> (r: GuiModes)
    ensures
        (r, final(out)@) == (escape_step(m).0, old(out)@ + escape_step(m).1),
{
    let ghost o = out@;
    assert(o =~= o + Seq::<GuiCommand>::empty());
    if m.pending_chaos {
        GuiModes { pending_chaos: false, ..m }
    } else if m.pending_commit {
        GuiModes { pending_commit: false, ..m }
    } else if m.pending_evict {
        GuiModes { pending_evict: false, ..m }
    } else if m.chaos {
        GuiModes { chaos: false, ..m }
    } else if m.almanac {
        GuiModes { almanac: false, ..m }
    } else if m.advisor {
        GuiModes { advisor: false, ..m }
    } else if m.charter {
        GuiModes { charter: false, ..m }
    } else if m.inspector {
        GuiModes { inspector: false, ..m }
    } else if m.browser {
        push_when(out, true, GuiCommand::ClearBrowse);
        if m.browser_table {
            GuiModes { browser_table: false, ..m }
        } else {
            GuiModes { browser: false, ..m }
        }
    } else if m.plan_open {
        GuiModes { plan_open: false, ..m }
    } else if m.ns_picker {
        GuiModes { ns_picker: false, ..m }
    } else if m.picker {
        GuiModes { picker: false, ..m }
    } else if m.log_open && m.log_filter_active {
        GuiModes { log_filter_active: false, ..m }
    } else if m.log_open {
        push_when(out, true, GuiCommand::ClearLogs);
        GuiModes { log_open: false, ..m }
    } else if m.image_edit {
        GuiModes { image_edit: false, ..m }
    } else if m.menu_open {
        GuiModes { menu_open: false, ..m }
    } else if m.panel {
        GuiModes { panel: false, ..m }
    } else {
        push_when(out, true, GuiCommand::Exit);
        m
    }
}

fn digit_cmds(out: &mut Vec<GuiCommand>, go: bool, almanac: bool, digit: Option<u8>)
    ensures
        final(out)@ == old(out)@ + digit_cmds_spec(go, almanac, digit),
{
    let ghost o = out@;
    assert(o =~= o + Seq::<GuiCommand>::empty());
    if go {
        if let Some(d) = digit {
            if d < 4 {
                let c = if almanac {
                    GuiCommand::AlmanacGo(d)
                } else {
                    GuiCommand::AdvisorGo(d)
                };
                push_when(out, true, c);
            }
        }
    }
}

fn log_keys(out: &mut Vec<GuiCommand>, k: FrameKeys)
    ensures
        final(out)@ == log_keys_spec(old(out)@, k),
{
    push_when(out, k.p, GuiCommand::LogPrevious);
    push_when(out, k.t, GuiCommand::LogTimestamps);
    push_when(out, k.s, GuiCommand::LogWindow);
    push_when(out, k.c, GuiCommand::LogCopy);
    push_when(out, k.w, GuiCommand::LogExport);
    push_when(out, k.down, GuiCommand::LogScrollDown);
    push_when(out, k.up, GuiCommand::LogScrollUp);
    push_when(out, k.g, GuiCommand::LogTop);
    push_when(out, k.f, GuiCommand::LogFollow);
}

fn window_keys(out: &mut Vec<GuiCommand>, m: GuiModes, k: FrameKeys)
    ensures
        final(out)@ == window_keys_spec(old(out)@, m, k),
{
    digit_cmds(out, m.almanac, true, k.digit);
    push_when(out, m.almanac && k.left, GuiCommand::AlmanacStep(false));
    push_when(out, m.almanac && k.right, GuiCommand::AlmanacStep(true));
    digit_cmds(out, m.advisor, false, k.digit);
    push_when(out, m.advisor && k.left, GuiCommand::AdvisorStep(false));
    push_when(out, m.advisor && k.right, GuiCommand::AdvisorStep(true));
    push_when(out, m.inspector && k.c, GuiCommand::InspectorCopy);
    push_when(out, m.inspector && k.w, GuiCommand::InspectorExport);
}

fn run_quit(s: &mut GuiModes, out: &mut Vec<GuiCommand>, m0: GuiModes, k: FrameKeys)
    ensures
        *final(s) == stage_quit((*old(s), old(out)@), m0, k).0,
        final(out)@ == stage_quit((*old(s), old(out)@), m0, k).1,
{
    let typing0 = (m0.log_open && m0.log_filter_active) || m0.image_edit;
    push_when(out, (k.q && !typing0) || k.close_requested, GuiCommand::Quit);
}

fn run_almanac(s: &mut GuiModes, out: &mut Vec<GuiCommand>, m0: GuiModes, k: FrameKeys)
    ensures
        *final(s) == stage_almanac((*old(s), old(out)@), m0, k).0,
        final(out)@ == stage_almanac((*old(s), old(out)@), m0, k).1,
{
    let typing0 = (m0.log_open && m0.log_filter_active) || m0.image_edit;
    if (k.f1 || k.slash) && !s.log_open && !typing0 && !s.advisor && !s.charter && !s.chaos
        && !s.browser {
        s.almanac = !s.almanac;
    }
}

fn run_plan(s: &mut GuiModes, out: &mut Vec<GuiCommand>, m0: GuiModes, k: FrameKeys)
    ensures
        *final(s) == stage_plan((*old(s), old(out)@), k).0,
        final(out)@ == stage_plan((*old(s), old(out)@), k).1,
{
    if k.t && k.synced && !s.panel && !s.almanac && !s.advisor && !s.charter && !s.chaos
        && !s.browser && !s.picker && !s.ns_picker {
        s.plan_open = !s.plan_open;
    }
}

fn run_browser(s: &mut GuiModes, out: &mut Vec<GuiCommand>, m0: GuiModes, k: FrameKeys)
    ensures
        *final(s) == stage_browser((*old(s), old(out)@), m0, k).0,
        final(out)@ == stage_browser((*old(s), old(out)@), m0, k).1,
{
    let typing0 = (m0.log_open && m0.log_filter_active) || m0.image_edit;
    let free = !typing0 && !s.log_open && !s.panel && !s.browser && !s.inspector && !s.almanac
        && !s.advisor && !s.charter && !s.chaos && !s.plan_open && !s.picker && !s.ns_picker
        && !s.menu_open && !s.pending_evict && !s.pending_commit && !s.pending_chaos;
    if free && k.colon {
        s.browser = true;
        s.browser_table = false;
        out.push(GuiCommand::OpenBrowser);
    }
}

fn run_inspect(s: &mut GuiModes, out: &mut Vec<GuiCommand>, m0: GuiModes, k: FrameKeys)
    ensures
        *final(s) == stage_inspect((*old(s), old(out)@), m0, k).0,
        final(out)@ == stage_inspect((*old(s), old(out)@), m0, k).1,
{
    let typing0 = (m0.log_open && m0.log_filter_active) || m0.image_edit;
    if k.y && !typing0 && !s.log_open && !s.inspector && !s.almanac && !s.advisor && !s.charter
        && !s.chaos && !s.browser && !s.plan_open && !s.pending_evict && !s.pending_commit
        && !s.pending_chaos && k.synced && k.panel_has_yaml {
        s.inspector = true;
        out.push(GuiCommand::Inspect);
    }
}

fn run_escape(s: &mut GuiModes, out: &mut Vec<GuiCommand>, m0: GuiModes, k: FrameKeys)
    ensures
        *final(s) == stage_escape((*old(s), old(out)@), k).0,
        final(out)@ == stage_escape((*old(s), old(out)@), k).1,
{
    if k.escape {
        let cur = *s;
        *s = escape_exec(cur, out);
    }
}

fn run_log(m: GuiModes, out: &mut Vec<GuiCommand>, k: FrameKeys) -> (r: GuiModes)
    ensures
        r == stage_log((m, old(out)@), k).0,
        final(out)@ == stage_log((m, old(out)@), k).1,
{
    if m.log_open {
        if m.log_filter_active {
            out.push(GuiCommand::EditLogFilter);
            GuiModes { log_filter_active: !k.enter, ..m }
        } else {
            log_keys(out, k);
            GuiModes { log_filter_active: k.slash, ..m }
        }
    } else {
        out.push(GuiCommand::LogRewind);
        m
    }
}

fn run_picker(m: GuiModes, out: &mut Vec<GuiCommand>, k: FrameKeys) -> (r: GuiModes)
    ensures
        r == stage_picker((m, old(out)@), k).0,
        final(out)@ == stage_picker((m, old(out)@), k).1,
{
    if !m.picker {
        m
    } else if k.c {
        GuiModes { picker: false, ..m }
    } else if k.has_contexts {
        push_when(out, k.down, GuiCommand::PickerNext);
        push_when(out, k.up, GuiCommand::PickerPrev);
        if k.enter {
            out.push(GuiCommand::SwitchContext);
            out.push(GuiCommand::ClearLogs);
            GuiModes { picker: false, panel: false, log_open: false, ..m }
        } else {
            m
        }
    } else {
        m
    }
}

fn run_ns_picker(s: &mut GuiModes, out: &mut Vec<GuiCommand>, m0: GuiModes, k: FrameKeys)
    ensures
        *final(s) == stage_ns_picker((*old(s), old(out)@), k).0,
        final(out)@ == stage_ns_picker((*old(s), old(out)@), k).1,
{
    if s.ns_picker {
        push_when(out, k.down, GuiCommand::NsPickerNext);
        push_when(out, k.up, GuiCommand::NsPickerPrev);
        if k.enter {
            s.ns_picker = false;
            out.push(GuiCommand::SetNamespaceFilter);
        }
    }
}

fn run_windows(s: &mut GuiModes, out: &mut Vec<GuiCommand>, m0: GuiModes, k: FrameKeys)
    ensures
        *final(s) == stage_windows((*old(s), old(out)@), k).0,
        final(out)@ == stage_windows((*old(s), old(out)@), k).1,
{
    let cur = *s;
    window_keys(out, cur, k);
}

fn run_move(s: &mut GuiModes, out: &mut Vec<GuiCommand>, m0: GuiModes, k: FrameKeys)
    ensures
        *final(s) == stage_move((*old(s), old(out)@), m0).0,
        final(out)@ == stage_move((*old(s), old(out)@), m0).1,
{
    if !s.picker && !s.ns_picker && !s.almanac && !s.advisor && !s.charter && !s.chaos
        && !s.browser && !m0.panel && !s.plan_open && !s.menu_open && !s.log_open {
        out.push(GuiCommand::MoveMap);
    }
}

fn run_nav(s: &mut GuiModes, out: &mut Vec<GuiCommand>, m0: GuiModes, k: FrameKeys)
    ensures
        *final(s) == stage_nav((*old(s), old(out)@), m0, k).0,
        final(out)@ == stage_nav((*old(s), old(out)@), m0, k).1,
{
    if !(!k.synced || s.picker || s.ns_picker || s.almanac || s.advisor || s.charter || s.chaos
        || s.pending_chaos || s.browser || m0.panel || s.plan_open || s.menu_open || s.log_open) {
        let opens = k.c && k.has_contexts;
        s.picker = opens;
        push_when(out, k.f, GuiCommand::FitView);
        push_when(out, opens, GuiCommand::OpenPicker);
        let sail = if k.next_city {
            GuiCommand::SailNext
        } else {
            GuiCommand::SailPrev
        };
        push_when(out, k.next_city || k.prev_city, sail);
        push_when(out, k.n && k.has_attention, GuiCommand::NextConcern);
        push_when(out, k.enter, GuiCommand::OpenSelection);
    }
}

fn run_tail(s: &mut GuiModes, out: &mut Vec<GuiCommand>, m0: GuiModes, k: FrameKeys)
    ensures
        *final(s) == stage_tail((*old(s), old(out)@), m0, k).0,
        final(out)@ == stage_tail((*old(s), old(out)@), m0, k).1,
{
    let typing0 = (m0.log_open && m0.log_filter_active) || m0.image_edit;
    let free_now = !typing0 && !s.log_open && !s.picker && !s.ns_picker && !s.almanac
        && !s.advisor && !s.charter && !s.chaos && !s.browser && !s.inspector && !s.plan_open
        && !s.menu_open && !s.pending_evict && !s.pending_commit && !s.pending_chaos;
    if k.synced && k.l && k.has_attention && free_now {
        if k.tail_target {
            s.log_open = true;
            s.log_filter_active = false;
            out.push(GuiCommand::TailConcern);
        } else {
            out.push(GuiCommand::NoPodToast);
        }
    }
}

fn run_blast(s: &mut GuiModes, out: &mut Vec<GuiCommand>, m0: GuiModes, k: FrameKeys)
    ensures
        *final(s) == stage_blast((*old(s), old(out)@), m0, k).0,
        final(out)@ == stage_blast((*old(s), old(out)@), m0, k).1,
{
    let typing0 = (m0.log_open && m0.log_filter_active) || m0.image_edit;
    let free_now = !typing0 && !s.log_open && !s.picker && !s.ns_picker && !s.almanac
        && !s.advisor && !s.charter && !s.chaos && !s.browser && !s.inspector && !s.plan_open
        && !s.menu_open && !s.pending_evict && !s.pending_commit && !s.pending_chaos;
    if k.synced && k.b && free_now && !m0.panel {
        out.push(GuiCommand::ToggleBlast);
    }
}

/// One frame of the map window's keyboard handling: the modes after the
/// frame and the commands for the caller, in order (see
/// [`frame_input_spec`] and its stages).
pub fn frame_input(m: &GuiModes, k: &FrameKeys) -> (r: (GuiModes, Vec<GuiCommand>))
    ensures
        (r.0, r.1@) == frame_input_spec(*m, *k),
{
    let m0 = *m;
    let k = *k;
    let mut s = m0;
    let mut out: Vec<GuiCommand> = Vec::new();
    assert(out@ =~= Seq::<GuiCommand>::empty());
    run_quit(&mut s, &mut out, m0, k);
    run_almanac(&mut s, &mut out, m0, k);
    run_plan(&mut s, &mut out, m0, k);
    run_browser(&mut s, &mut out, m0, k);
    run_inspect(&mut s, &mut out, m0, k);
    run_escape(&mut s, &mut out, m0, k);
    s = run_log(s, &mut out, k);
    s = run_picker(s, &mut out, k);
    run_ns_picker(&mut s, &mut out, m0, k);
    run_windows(&mut s, &mut out, m0, k);
    run_move(&mut s, &mut out, m0, k);
    run_nav(&mut s, &mut out, m0, k);
    run_tail(&mut s, &mut out, m0, k);
    run_blast(&mut s, &mut out, m0, k);
    (s, out)
}

} // verus!
