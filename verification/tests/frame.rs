use kubernation::frame::{frame_input, FrameKeys, GuiCommand, GuiModes};

fn bare() -> GuiModes {
    GuiModes {
        panel: false,
        almanac: false,
        advisor: false,
        charter: false,
        inspector: false,
        browser: false,
        browser_table: false,
        chaos: false,
        pending_chaos: false,
        pending_commit: false,
        pending_evict: false,
        plan_open: false,
        picker: false,
        ns_picker: false,
        menu_open: false,
        log_open: false,
        log_filter_active: false,
        image_edit: false,
    }
}

fn none() -> FrameKeys {
    FrameKeys {
        q: false,
        close_requested: false,
        f1: false,
        slash: false,
        colon: false,
        escape: false,
        enter: false,
        down: false,
        up: false,
        left: false,
        right: false,
        digit: None,
        b: false,
        c: false,
        f: false,
        g: false,
        l: false,
        n: false,
        p: false,
        s: false,
        t: false,
        w: false,
        y: false,
        next_city: false,
        prev_city: false,
        synced: true,
        has_attention: true,
        has_contexts: true,
        panel_has_yaml: true,
        tail_target: true,
    }
}

#[test]
fn esc_closes_the_topmost_thing_then_leaves_from_the_bare_map() {
    let k = FrameKeys { escape: true, ..none() };
    let m = GuiModes { pending_commit: true, plan_open: true, ..bare() };
    let (after, _) = frame_input(&m, &k);
    assert!(!after.pending_commit && after.plan_open);
    let (after, _) = frame_input(&after, &k);
    assert!(!after.plan_open);
    let (_, cmds) = frame_input(&bare(), &k);
    assert!(cmds.contains(&GuiCommand::Exit));
    let (after, cmds) = frame_input(&GuiModes { log_open: true, ..bare() }, &k);
    assert!(!after.log_open);
    assert!(cmds.contains(&GuiCommand::ClearLogs) && !cmds.contains(&GuiCommand::Exit));
}

#[test]
fn q_is_text_while_typing_and_a_command_otherwise() {
    let k = FrameKeys { q: true, ..none() };
    let typing = GuiModes { log_open: true, log_filter_active: true, ..bare() };
    assert!(!frame_input(&typing, &k).1.contains(&GuiCommand::Quit));
    assert!(frame_input(&bare(), &k).1.contains(&GuiCommand::Quit));
    let close = FrameKeys { close_requested: true, ..none() };
    assert!(frame_input(&typing, &close).1.contains(&GuiCommand::Quit));
}

#[test]
fn map_keys_work_only_on_the_bare_map() {
    let k = FrameKeys { f: true, n: true, next_city: true, ..none() };
    let (_, cmds) = frame_input(&bare(), &k);
    assert_eq!(
        cmds,
        vec![
            GuiCommand::LogRewind,
            GuiCommand::MoveMap,
            GuiCommand::FitView,
            GuiCommand::SailNext,
            GuiCommand::NextConcern
        ]
    );
    let (_, cmds) = frame_input(&GuiModes { almanac: true, ..bare() }, &k);
    assert_eq!(cmds, vec![GuiCommand::LogRewind]);
}

#[test]
fn the_almanac_key_toggles_and_colon_opens_the_browser() {
    let (after, _) = frame_input(&bare(), &FrameKeys { f1: true, ..none() });
    assert!(after.almanac);
    let (after, _) = frame_input(&after, &FrameKeys { slash: true, ..none() });
    assert!(!after.almanac);
    let (after, cmds) = frame_input(&bare(), &FrameKeys { colon: true, ..none() });
    assert!(after.browser && cmds.contains(&GuiCommand::OpenBrowser));
}

#[test]
fn l_tails_the_concern_or_says_it_has_no_pod() {
    let (after, cmds) = frame_input(&bare(), &FrameKeys { l: true, ..none() });
    assert!(after.log_open && cmds.contains(&GuiCommand::TailConcern));
    let (after, cmds) =
        frame_input(&bare(), &FrameKeys { l: true, tail_target: false, ..none() });
    assert!(!after.log_open && cmds.contains(&GuiCommand::NoPodToast));
}

#[test]
fn enter_in_the_context_picker_switches_and_closes_the_window() {
    let m = GuiModes { picker: true, panel: true, ..bare() };
    let (after, cmds) = frame_input(&m, &FrameKeys { enter: true, ..none() });
    assert!(!after.picker && !after.panel && !after.log_open);
    assert!(cmds.contains(&GuiCommand::SwitchContext));
}
