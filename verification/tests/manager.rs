use edge_snap::animation::{
    expand_from_edge, snap_to_edge, Ease, Frame, WindowAnimation,
};
use edge_snap::config::EdgeSnapConfig;
use edge_snap::cursor::{carries_position, hook_start, pumps_on, HookStart};
use edge_snap::geometry::{Edge, RectI32};
use edge_snap::manager::{Action, EdgeSnapManager, Phase, WindowEvent};

const MS: u128 = 1_000_000;

const WORK: RectI32 = RectI32 { left: 0, top: 0, right: 1920, bottom: 1080 };
const AT_LEFT: RectI32 = RectI32 { left: 10, top: 100, right: 510, bottom: 600 };
const AT_TOP: RectI32 = RectI32 { left: 100, top: 5, right: 600, bottom: 505 };
const HIDDEN: RectI32 = RectI32 { left: -495, top: 100, right: 5, bottom: 600 };
const AWAY: RectI32 = RectI32 { left: 300, top: 300, right: 800, bottom: 800 };

fn config(enabled: bool) -> EdgeSnapConfig {
    EdgeSnapConfig { enabled, threshold: 20, peek_width: 5, snap_delay_ms: 300 }
}

fn in_phase(phase: Phase) -> EdgeSnapManager {
    let mut manager = EdgeSnapManager::new(config(true));
    manager.phase = phase;
    manager
}

fn see(manager: &mut EdgeSnapManager, window: RectI32) -> Option<u64> {
    let geometry = Some((window, WORK));
    assert!(manager.can_take_move(&geometry));
    manager.on_window_moved_or_resized(geometry)
}

fn tick(manager: &mut EdgeSnapManager, x: i32, y: i32, window: RectI32, now: u128) -> Option<Action> {
    let geometry = Some((window, WORK));
    assert!(manager.can_take_tick(x, &geometry));
    manager.on_cursor_tick(x, y, geometry, now, now)
}

#[test]
fn fresh_manager_is_at_rest() {
    let manager = EdgeSnapManager::new(config(true));
    assert_eq!(manager.phase, Phase::Normal);
    assert_eq!(manager.pending_gen, 0);
    assert!(manager.hooks_mouse());
    assert_eq!(manager.start_cursor_watcher(), Some(33));
    assert!(manager.handle_window_event(&WindowEvent::Moved));
    assert!(manager.handle_window_event(&WindowEvent::Resized));
    assert!(!manager.handle_window_event(&WindowEvent::Other));
}

#[test]
fn disabled_manager_does_nothing() {
    let manager = EdgeSnapManager::new(config(false));
    assert!(!manager.hooks_mouse());
    assert_eq!(manager.start_cursor_watcher(), None);
    for event in [WindowEvent::Moved, WindowEvent::Resized, WindowEvent::Other] {
        assert!(!manager.handle_window_event(&event));
    }
}

#[test]
fn full_cycle_at_left_edge() {
    let mut manager = EdgeSnapManager::new(config(true));
    assert_eq!(see(&mut manager, AT_LEFT), Some(300));
    assert_eq!(manager.phase, Phase::Pending { edge: Edge::Left, generation: 1 });
    assert_eq!(manager.pending_gen, 1);

    let snap = manager.on_delay_elapsed().unwrap();
    assert_eq!(snap, Action::Snap { edge: Edge::Left });
    assert_eq!(manager.phase, Phase::Animating);
    manager.on_action_done(snap);
    assert_eq!(manager.phase, Phase::Snapped { edge: Edge::Left });

    assert_eq!(tick(&mut manager, 11, 300, HIDDEN, 0), None);
    let expand = tick(&mut manager, 10, 300, HIDDEN, 0).unwrap();
    assert_eq!(expand, Action::Expand { edge: Edge::Left });
    assert_eq!(manager.phase, Phase::Animating);
    manager.on_action_done(expand);
    assert_eq!(manager.phase, Phase::Expanded { edge: Edge::Left, mouse_left_at: None });

    assert_eq!(tick(&mut manager, 600, 300, AT_LEFT, 7), None);
    assert_eq!(manager.phase, Phase::Expanded { edge: Edge::Left, mouse_left_at: Some(7) });
    assert_eq!(tick(&mut manager, 600, 300, AT_LEFT, 6 + 500 * MS), None);
    assert_eq!(manager.phase, Phase::Expanded { edge: Edge::Left, mouse_left_at: Some(7) });
    assert_eq!(tick(&mut manager, 600, 300, AT_LEFT, 7 + 500 * MS), Some(snap));
    assert_eq!(manager.phase, Phase::Animating);
}

#[test]
fn cursor_back_over_window_resets_delay() {
    let mut manager = in_phase(Phase::Expanded { edge: Edge::Left, mouse_left_at: Some(0) });
    assert_eq!(tick(&mut manager, 510, 600, AT_LEFT, 900 * MS), None);
    assert_eq!(manager.phase, Phase::Expanded { edge: Edge::Left, mouse_left_at: None });
    assert_eq!(tick(&mut manager, 511, 600, AT_LEFT, 900 * MS), None);
    assert_eq!(
        manager.phase,
        Phase::Expanded { edge: Edge::Left, mouse_left_at: Some(900 * MS) }
    );
}

#[test]
fn absence_is_measured_by_second_reading() {
    let mut manager = in_phase(Phase::Expanded { edge: Edge::Top, mouse_left_at: None });
    let geometry = Some((AT_TOP, WORK));
    assert_eq!(manager.on_cursor_tick(0, 900, geometry, 5, 4), None);
    assert_eq!(manager.phase, Phase::Expanded { edge: Edge::Top, mouse_left_at: Some(5) });
    // A reading before the recorded one counts as no time at all.
    assert_eq!(manager.on_cursor_tick(0, 900, geometry, 2, 3), None);
    assert_eq!(manager.phase, Phase::Expanded { edge: Edge::Top, mouse_left_at: Some(5) });

    let mut manager = in_phase(Phase::Expanded { edge: Edge::Top, mouse_left_at: None });
    assert_eq!(
        manager.on_cursor_tick(0, 900, geometry, 5, 5 + 500 * MS),
        Some(Action::Snap { edge: Edge::Top })
    );
}

#[test]
fn moving_away_ends_every_phase_but_a_slide() {
    for phase in [
        Phase::Normal,
        Phase::Pending { edge: Edge::Left, generation: 0 },
        Phase::Snapped { edge: Edge::Right },
        Phase::Expanded { edge: Edge::Top, mouse_left_at: Some(3) },
    ] {
        let mut manager = in_phase(phase);
        assert_eq!(see(&mut manager, AWAY), None);
        assert_eq!(manager.phase, Phase::Normal);
        assert_eq!(manager.pending_gen, 0);
        assert_eq!(manager.on_delay_elapsed(), None);
        assert_eq!(manager.phase, Phase::Normal);
    }
    let mut manager = in_phase(Phase::Animating);
    assert_eq!(see(&mut manager, AWAY), None);
    assert_eq!(manager.phase, Phase::Animating);
}

#[test]
fn seen_at_an_edge_again_changes_nothing() {
    for phase in [
        Phase::Pending { edge: Edge::Left, generation: 0 },
        Phase::Snapped { edge: Edge::Right },
        Phase::Expanded { edge: Edge::Top, mouse_left_at: Some(3) },
        Phase::Animating,
    ] {
        let mut manager = in_phase(phase);
        assert_eq!(see(&mut manager, AT_TOP), None);
        assert_eq!(manager.phase, phase);
        assert_eq!(manager.pending_gen, 0);
    }
}

#[test]
fn unknown_geometry_changes_nothing() {
    let mut manager = in_phase(Phase::Snapped { edge: Edge::Left });
    assert!(manager.can_take_move(&None));
    assert_eq!(manager.on_window_moved_or_resized(None), None);
    assert!(manager.can_take_tick(0, &None));
    assert_eq!(manager.on_cursor_tick(0, 300, None, 0, 0), None);
    assert_eq!(manager.phase, Phase::Snapped { edge: Edge::Left });
}

#[test]
fn each_pending_snap_gets_the_next_number() {
    let mut manager = EdgeSnapManager::new(config(true));
    assert_eq!(see(&mut manager, AT_LEFT), Some(300));
    assert_eq!(see(&mut manager, AWAY), None);
    assert_eq!(see(&mut manager, AT_TOP), Some(300));
    assert_eq!(manager.phase, Phase::Pending { edge: Edge::Top, generation: 2 });
    // The first delay to end hides the window where it is pending now.
    assert_eq!(manager.on_delay_elapsed(), Some(Action::Snap { edge: Edge::Top }));
    assert_eq!(manager.on_delay_elapsed(), None);
    assert_eq!(manager.phase, Phase::Animating);
}

#[test]
fn outdated_pending_snap_is_left_alone() {
    let mut manager = in_phase(Phase::Pending { edge: Edge::Left, generation: 1 });
    manager.pending_gen = 2;
    assert_eq!(manager.on_delay_elapsed(), None);
    assert_eq!(manager.phase, Phase::Pending { edge: Edge::Left, generation: 1 });
}

#[test]
fn slide_is_undisturbed() {
    let mut manager = in_phase(Phase::Animating);
    assert_eq!(see(&mut manager, AT_LEFT), None);
    assert_eq!(manager.on_delay_elapsed(), None);
    assert_eq!(tick(&mut manager, 0, 300, HIDDEN, 900 * MS), None);
    assert_eq!(manager.phase, Phase::Animating);
}

#[test]
fn cursor_does_not_touch_other_phases() {
    for phase in [Phase::Normal, Phase::Pending { edge: Edge::Left, generation: 0 }] {
        let mut manager = in_phase(phase);
        assert_eq!(tick(&mut manager, 0, 300, AT_LEFT, 900 * MS), None);
        assert_eq!(manager.phase, phase);
    }
}

#[test]
fn manager_range_is_tested() {
    let mut manager = EdgeSnapManager::new(config(true));
    manager.pending_gen = u64::MAX;
    assert!(!manager.can_take_move(&Some((AT_LEFT, WORK))));
    assert!(manager.can_take_move(&Some((AWAY, WORK))));
    manager.phase = Phase::Animating;
    assert!(manager.can_take_move(&Some((AT_LEFT, WORK))));
    let far = RectI32 { left: i32::MAX, top: 0, right: i32::MAX, bottom: 0 };
    assert!(!manager.can_take_move(&Some((AT_LEFT, far))));
    assert!(manager.can_take_tick(0, &Some((AT_LEFT, far))));
    manager.phase = Phase::Snapped { edge: Edge::Left };
    assert!(!manager.can_take_tick(0, &Some((AT_LEFT, far))));
}

#[test]
fn hiding_slide_is_planned() {
    assert_eq!(
        snap_to_edge(Some((AT_LEFT, WORK)), &config(true), Edge::Left),
        Ok(WindowAnimation {
            from_x: 10,
            from_y: 100,
            to_x: -495,
            to_y: 100,
            duration_ms: 150,
            ease: Ease::In,
            raises: false,
        })
    );
    assert_eq!(snap_to_edge(None, &config(true), Edge::Left), Err(()));
}

#[test]
fn revealing_slide_is_planned() {
    assert_eq!(
        expand_from_edge(Edge::Left, &HIDDEN, &WORK),
        WindowAnimation {
            from_x: -495,
            from_y: 100,
            to_x: 0,
            to_y: 100,
            duration_ms: 200,
            ease: Ease::Out,
            raises: true,
        }
    );
}

#[test]
fn slide_runs_until_its_time_is_over() {
    let plan = snap_to_edge(Some((AT_LEFT, WORK)), &config(true), Edge::Left).unwrap();
    assert!(!plan.is_jump());
    assert!(plan.can_run());
    let between = Frame::Between { dx: -505, dy: 0, wait_ms: 16 };
    assert_eq!(plan.frame(0), between);
    assert_eq!(plan.frame(150 * MS - 1), between);
    let last = Frame::Last { x: -495, y: 100 };
    assert_eq!(plan.frame(150 * MS), last);
    assert_eq!(plan.frame(u128::MAX), last);
}

#[test]
fn slide_without_way_or_time_jumps() {
    let plan = WindowAnimation {
        from_x: 1,
        from_y: 2,
        to_x: 1,
        to_y: 2,
        duration_ms: 150,
        ease: Ease::In,
        raises: false,
    };
    assert!(plan.is_jump());
    assert!(WindowAnimation { to_y: 3, duration_ms: 0, ..plan }.is_jump());
    assert!(!WindowAnimation { to_y: 3, ..plan }.is_jump());
    assert!(!WindowAnimation { to_x: 0, ..plan }.is_jump());
    assert!(!WindowAnimation { from_x: i32::MIN, to_x: i32::MAX, ..plan }.can_run());
    assert!(!WindowAnimation { from_y: i32::MAX, to_y: -2, ..plan }.can_run());
}

#[test]
fn hook_calls_with_negative_code_carry_nothing() {
    assert!(!carries_position(-1));
    assert!(!carries_position(i32::MIN));
    assert!(carries_position(0));
    assert!(carries_position(3));
}

#[test]
fn hook_thread_answers_are_read() {
    assert_eq!(hook_start(None), HookStart::Lost);
    assert_eq!(hook_start(Some(0)), HookStart::Refused);
    assert_eq!(hook_start(Some(-7)), HookStart::Installed { hook: -7 });
    assert!(pumps_on(true, false));
    assert!(!pumps_on(true, true));
    assert!(!pumps_on(false, false));
}

#[test]
fn slid_window_stays_in_its_phase() {
    let mut manager = in_phase(Phase::Snapped { edge: Edge::Left });
    assert_eq!(see(&mut manager, HIDDEN), None);
    assert_eq!(manager.phase, Phase::Snapped { edge: Edge::Left });

    let out = RectI32 { left: 0, top: 100, right: 500, bottom: 600 };
    let expanded = Phase::Expanded { edge: Edge::Left, mouse_left_at: Some(9) };
    let mut manager = in_phase(expanded);
    assert_eq!(see(&mut manager, out), None);
    assert_eq!(manager.phase, expanded);

    // With a negative threshold a window flush with its edge is not at it.
    manager.config.threshold = -1;
    assert_eq!(see(&mut manager, out), None);
    assert_eq!(manager.phase, Phase::Normal);
}

#[test]
fn at_most_one_slide_is_under_way() {
    let mut manager = EdgeSnapManager::new(config(true));
    let mut under_way: Vec<Action> = Vec::new();
    let mut slides = 0;
    for round in 0..400u128 {
        let asked = match round % 4 {
            0 => {
                see(&mut manager, if round % 28 == 12 { AWAY } else { AT_LEFT });
                None
            }
            1 => manager.on_delay_elapsed(),
            2 => tick(&mut manager, if round % 5 == 0 { 0 } else { 900 }, 300, AT_LEFT, round * 100 * MS),
            _ => {
                if let Some(action) = under_way.pop() {
                    manager.on_action_done(action);
                }
                None
            }
        };
        if let Some(action) = asked {
            under_way.push(action);
            slides += 1;
        }
        assert_eq!(under_way.len(), if manager.phase == Phase::Animating { 1 } else { 0 });
        if let Phase::Pending { generation, .. } = manager.phase {
            assert_eq!(generation, manager.pending_gen);
        }
    }
    assert!(slides > 2);
}

#[test]
fn absence_counts_from_its_first_look() {
    let mut manager = in_phase(Phase::Expanded { edge: Edge::Left, mouse_left_at: None });
    // Away, back, and away again: the delay counts from the second leave.
    assert_eq!(tick(&mut manager, 600, 300, AT_LEFT, 100 * MS), None);
    assert_eq!(tick(&mut manager, 200, 300, AT_LEFT, 400 * MS), None);
    assert_eq!(tick(&mut manager, 600, 300, AT_LEFT, 450 * MS), None);
    // Reports of the window at its edge do not restart it.
    assert_eq!(see(&mut manager, AT_LEFT), None);
    assert_eq!(tick(&mut manager, 700, 300, AT_LEFT, 700 * MS), None);
    assert_eq!(manager.on_delay_elapsed(), None);
    assert_eq!(tick(&mut manager, 800, 300, AT_LEFT, 949 * MS), None);
    assert_eq!(
        tick(&mut manager, 800, 300, AT_LEFT, 950 * MS),
        Some(Action::Snap { edge: Edge::Left })
    );
}
