use layer_workspace::workspace::Workspace;

fn selected_count(w: &Workspace) -> usize {
    let mut n = 0;
    for i in 0..w.layer_count() {
        if w.layer(i).selected {
            n += 1;
        }
    }
    n
}

#[test]
fn mount_creates_staggered_layers() {
    let mut w = Workspace::new();
    w.mount();
    assert_eq!(w.layer_count(), 5);
    for i in 0..5 {
        let l = w.layer(i);
        assert_eq!(l.id, i);
        assert_eq!(l.x, 50 + 120 * (i as i32));
        assert_eq!(l.y, 50 + 80 * (i as i32));
        assert_eq!(l.z_index, i as i32);
        assert_eq!(l.selected, i == 0);
    }
    assert_eq!(w.selected_index(), Some(0));
    assert_eq!(w.subscription_count(), 7);
    assert!(!w.drag_state().dragging);
}

#[test]
fn select_layer_moves_selection() {
    let mut w = Workspace::new();
    w.mount();
    w.select_layer(2);
    assert_eq!(w.selected_index(), Some(2));
    assert!(!w.layer(0).selected);
    assert!(w.layer(2).selected);
    assert_eq!(selected_count(&w), 1);
}

#[test]
fn select_layer_out_of_bounds_is_a_no_op() {
    let mut w = Workspace::new();
    w.mount();
    let before: Vec<_> = (0..w.layer_count()).map(|i| w.layer(i)).collect();
    w.select_layer(5);
    w.select_layer(1000);
    assert_eq!(w.selected_index(), Some(0));
    for (i, l) in before.iter().enumerate() {
        assert_eq!(w.layer(i), *l);
    }
}

#[test]
fn at_most_one_selected_over_any_select_sequence() {
    let mut w = Workspace::new();
    w.mount();
    for index in [3usize, 3, 0, 9, 4, 2, 100, 1] {
        w.select_layer(index);
        assert!(selected_count(&w) <= 1);
    }
}

#[test]
fn bring_to_front_is_strictly_above_all_others() {
    let mut w = Workspace::new();
    w.mount();
    w.bring_to_front();
    let z0 = w.layer(0).z_index;
    assert_eq!(z0, 5);
    for i in 1..5 {
        assert!(z0 > w.layer(i).z_index);
    }
}

#[test]
fn send_to_back_is_strictly_below_all_others() {
    let mut w = Workspace::new();
    w.mount();
    w.send_to_back();
    let z0 = w.layer(0).z_index;
    assert_eq!(z0, -1);
    for i in 1..5 {
        assert!(z0 < w.layer(i).z_index);
    }
}

#[test]
fn update_position_changes_only_the_named_axis() {
    let mut w = Workspace::new();
    w.mount();
    w.select_layer(3);
    let before = w.layer(3);
    w.update_selected_position("x", 999);
    assert_eq!(w.layer(3).x, 999);
    assert_eq!(w.layer(3).y, before.y);
    assert_eq!(w.layer(3).z_index, before.z_index);
    w.update_selected_position("y", -17);
    assert_eq!(w.layer(3).y, -17);
    assert_eq!(w.layer(3).x, 999);
}

#[test]
fn update_position_unrecognized_axis_is_a_no_op() {
    let mut w = Workspace::new();
    w.mount();
    let before = w.layer(0);
    w.update_selected_position("z", 42);
    w.update_selected_position("", 42);
    w.update_selected_position("xy", 42);
    assert_eq!(w.layer(0), before);
}

#[test]
fn update_position_without_selection_is_a_no_op() {
    let mut w = Workspace::new();
    w.update_selected_position("x", 42);
    assert_eq!(w.layer_count(), 0);
    assert_eq!(w.selected_index(), None);
}

#[test]
fn update_position_accepts_extreme_values() {
    let mut w = Workspace::new();
    w.mount();
    w.update_selected_position("x", i32::MAX);
    w.update_selected_position("y", i32::MIN);
    assert_eq!(w.layer(0).x, i32::MAX);
    assert_eq!(w.layer(0).y, i32::MIN);
}

#[test]
fn zorder_commands_without_selection_are_no_ops() {
    let mut w = Workspace::new();
    w.bring_to_front();
    w.send_to_back();
    assert_eq!(w.layer_count(), 0);
    assert_eq!(w.selected_index(), None);
}

#[test]
fn drag_round_trip_lands_on_the_computed_position() {
    let mut w = Workspace::new();
    w.mount();
    // Layer 1 sits at (170, 130); the host reports that as its viewport origin.
    w.pointer_down(1, 300, 200, 170, 130);
    let d = w.drag_state();
    assert!(d.dragging);
    assert_eq!((d.start_x, d.start_y), (130, 70));
    assert_eq!(d.layer_id, 1);
    // Container origin (10, 20), pointer moves to (400, 250).
    w.pointer_move(400, 250, 10, 20);
    assert_eq!(w.layer(1).x, (400 - 10) - (300 - 170));
    assert_eq!(w.layer(1).y, (250 - 20) - (200 - 130));
    w.pointer_up();
    assert!(!w.drag_state().dragging);
}

#[test]
fn new_drag_recomputes_grab_offset_fresh() {
    let mut w = Workspace::new();
    w.mount();
    w.pointer_down(1, 300, 200, 170, 130);
    w.pointer_move(400, 250, 0, 0);
    w.pointer_up();
    // Second gesture over another layer, at other coordinates: the grab
    // offset comes from this gesture alone.
    w.pointer_down(2, 10, 10, 4, 9);
    let d = w.drag_state();
    assert_eq!((d.start_x, d.start_y), (6, 1));
    assert_eq!(d.layer_id, 2);
    w.pointer_move(100, 100, 0, 0);
    assert_eq!(w.layer(2).x, 94);
    assert_eq!(w.layer(2).y, 99);
}

#[test]
fn pointer_move_while_idle_is_a_no_op() {
    let mut w = Workspace::new();
    w.mount();
    let before: Vec<_> = (0..w.layer_count()).map(|i| w.layer(i)).collect();
    w.pointer_move(12345, -9876, 3, 4);
    for (i, l) in before.iter().enumerate() {
        assert_eq!(w.layer(i), *l);
    }
    assert!(!w.drag_state().dragging);
}

#[test]
fn pointer_up_ends_a_drag_wherever_the_pointer_is() {
    let mut w = Workspace::new();
    w.mount();
    w.pointer_down(0, 60, 60, 50, 50);
    w.pointer_move(-5000, 9000, 0, 0);
    w.pointer_up();
    assert!(!w.drag_state().dragging);
    // A later move does nothing.
    let pos = (w.layer(0).x, w.layer(0).y);
    w.pointer_move(1, 2, 3, 4);
    assert_eq!((w.layer(0).x, w.layer(0).y), pos);
}

#[test]
fn unmount_clears_everything_and_is_safe_unmounted() {
    let mut w = Workspace::new();
    w.unmount();
    assert_eq!(w.layer_count(), 0);
    w.mount();
    w.select_layer(3);
    w.pointer_down(3, 0, 0, 0, 0);
    w.unmount();
    assert_eq!(w.layer_count(), 0);
    assert_eq!(w.selected_index(), None);
    assert_eq!(w.subscription_count(), 0);
    assert!(!w.drag_state().dragging);
}

#[test]
fn remount_yields_a_fresh_state_without_leaked_subscriptions() {
    let mut w = Workspace::new();
    w.mount();
    let first: Vec<_> = (0..w.layer_count()).map(|i| w.layer(i)).collect();
    let first_selected = w.selected_index();
    let first_subs = w.subscription_count();
    // Disturb the state, then run two unmount/mount cycles.
    w.select_layer(4);
    w.bring_to_front();
    w.pointer_down(4, 9, 9, 0, 0);
    for _ in 0..2 {
        w.unmount();
        assert_eq!(w.subscription_count(), 0);
        w.mount();
        assert_eq!(w.subscription_count(), first_subs);
    }
    assert_eq!(w.layer_count(), first.len());
    for (i, l) in first.iter().enumerate() {
        assert_eq!(w.layer(i), *l);
    }
    assert_eq!(w.selected_index(), first_selected);
    assert!(!w.drag_state().dragging);
}

#[test]
fn mount_while_mounted_first_fully_unmounts() {
    let mut w = Workspace::new();
    w.mount();
    w.select_layer(3);
    w.update_selected_position("x", -1);
    w.mount();
    assert_eq!(w.layer_count(), 5);
    assert_eq!(w.selected_index(), Some(0));
    assert_eq!(w.layer(3).x, 50 + 120 * 3);
    assert_eq!(w.subscription_count(), 7);
}

#[test]
fn scenario_mount_raise_reselect_lower() {
    let mut w = Workspace::new();
    w.mount();
    assert_eq!(w.selected_index(), Some(0));
    w.bring_to_front();
    assert_eq!(w.layer(0).z_index, 5);
    w.select_layer(2);
    assert!(!w.layer(0).selected);
    assert!(w.layer(2).selected);
    w.send_to_back();
    // Depths are now {5, 1, 2, 3, 4}; the minimum is 1, so layer 2 lands
    // strictly below every other layer at depth 0.
    assert_eq!(w.layer(2).z_index, 0);
    for i in 0..5 {
        if i != 2 {
            assert!(w.layer(2).z_index < w.layer(i).z_index);
        }
    }
}
