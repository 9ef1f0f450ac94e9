use wsbar::workspace::{
    button_intent, cycle_target_of, scroll_intent, workspace_count_from_ids, Direction,
    DirectoryEvent, ScrollDelta, SwitchCommand, UserIntent, WorkspaceMessage, Workspaces,
};

fn state_of(w: &Workspaces) -> (usize, usize) {
    (w.total_workspaces(), w.focus_at())
}

/// Drive a fresh synchronizer to `{total, focus}` through its own API.
fn synchronizer_at(total: usize, focus: usize) -> Workspaces {
    let mut w = Workspaces::new();
    w.apply_directory_event(DirectoryEvent::WorkspaceCountChanged(total));
    if focus != 1 {
        let cmd = w.apply_user_intent(UserIntent::SwitchTo(focus));
        assert_eq!(cmd, Some(SwitchCommand { target: focus }));
    }
    assert_eq!(state_of(&w), (total, focus));
    w
}

#[test]
fn new_starts_provisional() {
    let w = Workspaces::new();
    assert_eq!(state_of(&w), (1, 1));
}

#[test]
fn default_matches_new() {
    let w = Workspaces::default();
    assert_eq!(state_of(&w), (1, 1));
}

#[test]
fn switch_to_current_is_noop() {
    let mut w = synchronizer_at(4, 2);
    let cmd = w.apply_user_intent(UserIntent::SwitchTo(2));
    assert_eq!(cmd, None);
    assert_eq!(state_of(&w), (4, 2));
}

#[test]
fn switch_to_other_is_optimistic_and_issues_command() {
    let mut w = synchronizer_at(4, 1);
    let cmd = w.apply_user_intent(UserIntent::SwitchTo(3));
    assert_eq!(cmd, Some(SwitchCommand { target: 3 }));
    assert_eq!(state_of(&w), (4, 3));
}

#[test]
fn cycle_next_returns_after_full_round() {
    let mut w = synchronizer_at(4, 2);
    let mut visited = Vec::new();
    for _ in 0..4 {
        let cmd = w.apply_user_intent(UserIntent::CycleBy(Direction::Next));
        assert!(cmd.is_some());
        visited.push(w.focus_at());
    }
    assert_eq!(visited, vec![3, 4, 1, 2]);
    assert_eq!(w.focus_at(), 2);
}

#[test]
fn cycle_previous_wraps_to_last() {
    let mut w = synchronizer_at(4, 1);
    let cmd = w.apply_user_intent(UserIntent::CycleBy(Direction::Previous));
    assert_eq!(cmd, Some(SwitchCommand { target: 4 }));
    assert_eq!(state_of(&w), (4, 4));
}

#[test]
fn single_workspace_cycles_are_stable() {
    let mut w = Workspaces::new();
    for direction in [
        Direction::Previous,
        Direction::Next,
        Direction::Next,
        Direction::Previous,
        Direction::Previous,
    ] {
        let cmd = w.apply_user_intent(UserIntent::CycleBy(direction));
        assert_eq!(cmd, None);
        assert_eq!(state_of(&w), (1, 1));
    }
}

#[test]
fn count_shrink_clamps_focus() {
    let mut w = synchronizer_at(4, 3);
    w.apply_directory_event(DirectoryEvent::WorkspaceCountChanged(1));
    assert_eq!(state_of(&w), (1, 1));
    let cmd = w.apply_user_intent(UserIntent::CycleBy(Direction::Previous));
    assert_eq!(cmd, None);
    assert_eq!(state_of(&w), (1, 1));
}

#[test]
fn count_growth_keeps_focus() {
    let mut w = synchronizer_at(2, 2);
    w.apply_directory_event(DirectoryEvent::WorkspaceCountChanged(5));
    assert_eq!(state_of(&w), (5, 2));
}

#[test]
fn coalescing_slot_keeps_only_latest() {
    let mut slot = wsbar::channel::CoalescingSlot::new();
    slot.push(DirectoryEvent::WorkspaceCountChanged(2));
    slot.push(DirectoryEvent::WorkspaceCountChanged(5));
    let taken = slot.take();
    assert_eq!(taken, Some(DirectoryEvent::WorkspaceCountChanged(5)));
    assert_eq!(slot.take(), None);

    let mut w = Workspaces::new();
    if let Some(event) = taken {
        w.apply_directory_event(event);
    }
    assert_eq!(w.total_workspaces(), 5);
}

#[test]
fn scenario_switch_then_cycle_both_ways() {
    let mut w = synchronizer_at(4, 2);

    let cmd = w.apply_user_intent(UserIntent::SwitchTo(2));
    assert_eq!(cmd, None);
    assert_eq!(state_of(&w), (4, 2));

    let cmd = w.apply_user_intent(UserIntent::CycleBy(Direction::Next));
    assert_eq!(cmd, Some(SwitchCommand { target: 3 }));
    assert_eq!(state_of(&w), (4, 3));

    let mut issued = Vec::new();
    for _ in 0..2 {
        if let Some(c) = w.apply_user_intent(UserIntent::CycleBy(Direction::Previous)) {
            issued.push(c.target);
        }
    }
    assert_eq!(issued, vec![2, 1]);
    assert_eq!(state_of(&w), (4, 1));
}

#[test]
fn scroll_sign_maps_the_same_from_both_sources() {
    let from_lines = scroll_intent(ScrollDelta::Lines { upward: true });
    let from_pixels = scroll_intent(ScrollDelta::Pixels { upward: true });
    assert_eq!(from_lines, UserIntent::CycleBy(Direction::Previous));
    assert_eq!(from_pixels, from_lines);

    let down_lines = scroll_intent(ScrollDelta::Lines { upward: false });
    let down_pixels = scroll_intent(ScrollDelta::Pixels { upward: false });
    assert_eq!(down_lines, UserIntent::CycleBy(Direction::Next));
    assert_eq!(down_pixels, down_lines);
}

#[test]
fn buttons_map_zero_based_index_to_one_based_id() {
    assert_eq!(button_intent(0), UserIntent::SwitchTo(1));
    assert_eq!(button_intent(3), UserIntent::SwitchTo(4));
}

#[test]
fn update_dispatches_all_message_kinds() {
    let mut w = synchronizer_at(3, 1);

    let cmd = w.update(WorkspaceMessage::ChangeTo(2));
    assert_eq!(cmd, Some(SwitchCommand { target: 2 }));
    assert_eq!(state_of(&w), (3, 2));

    let cmd = w.update(WorkspaceMessage::ScrollBy(ScrollDelta::Pixels { upward: false }));
    assert_eq!(cmd, Some(SwitchCommand { target: 3 }));
    assert_eq!(state_of(&w), (3, 3));

    let cmd = w.update(WorkspaceMessage::ScrollBy(ScrollDelta::Lines { upward: true }));
    assert_eq!(cmd, Some(SwitchCommand { target: 2 }));
    assert_eq!(state_of(&w), (3, 2));

    let cmd = w.update(WorkspaceMessage::UpdateTotalWorkspaceSize(6));
    assert_eq!(cmd, None);
    assert_eq!(state_of(&w), (6, 2));
}

#[test]
fn out_of_range_switch_passes_through_and_cycling_recovers() {
    let mut w = synchronizer_at(2, 1);
    let cmd = w.apply_user_intent(UserIntent::SwitchTo(9));
    assert_eq!(cmd, Some(SwitchCommand { target: 9 }));
    assert_eq!(state_of(&w), (2, 9));

    let cmd = w.apply_user_intent(UserIntent::CycleBy(Direction::Next));
    assert_eq!(cmd, Some(SwitchCommand { target: 2 }));
    assert_eq!(state_of(&w), (2, 2));
}

#[test]
fn cycle_target_matches_modular_ring() {
    assert_eq!(cycle_target_of(1, 4, Direction::Previous), 4);
    assert_eq!(cycle_target_of(3, 4, Direction::Previous), 2);
    assert_eq!(cycle_target_of(4, 4, Direction::Next), 1);
    assert_eq!(cycle_target_of(2, 4, Direction::Next), 3);
    assert_eq!(cycle_target_of(1, 1, Direction::Previous), 1);
    assert_eq!(cycle_target_of(1, 1, Direction::Next), 1);
}

#[test]
fn count_from_ids_takes_the_maximum() {
    assert_eq!(workspace_count_from_ids(&vec![1, 2, 3]), 3);
    assert_eq!(workspace_count_from_ids(&vec![3, 1, 2]), 3);
    assert_eq!(workspace_count_from_ids(&vec![-5, 7, 2]), 7);
}

#[test]
fn count_from_ids_defaults_to_one() {
    assert_eq!(workspace_count_from_ids(&Vec::new()), 1);
    assert_eq!(workspace_count_from_ids(&vec![-99, -1, 0]), 1);
}

#[test]
fn clock_is_stateless() {
    let _ = wsbar::clock::Clock::new();
    let _ = wsbar::clock::Clock::default();
}
