use layer_workspace::drag::DragState;
use layer_workspace::layer::Layer;

#[test]
fn layer_new_starts_unselected() {
    let l = Layer::new(7, -3, 4, 2);
    assert_eq!(l.id, 7);
    assert_eq!((l.x, l.y), (-3, 4));
    assert_eq!(l.z_index, 2);
    assert!(!l.selected);
}

#[test]
fn layer_setters_touch_only_their_fields() {
    let mut l = Layer::new(1, 10, 20, 3);
    l.set_position(-100, 200);
    assert_eq!((l.x, l.y), (-100, 200));
    assert_eq!(l.z_index, 3);
    l.set_z_index(-9);
    assert_eq!(l.z_index, -9);
    assert_eq!((l.x, l.y), (-100, 200));
    l.set_selected(true);
    assert!(l.selected);
    assert_eq!(l.id, 1);
}

#[test]
fn drag_state_lifecycle() {
    let mut d = DragState::new();
    assert!(!d.dragging);
    d.start(12, -7, 3);
    assert!(d.dragging);
    assert_eq!((d.start_x, d.start_y), (12, -7));
    assert_eq!(d.layer_id, 3);
    d.stop();
    assert!(!d.dragging);
    d.start(1, 2, 0);
    assert_eq!((d.start_x, d.start_y), (1, 2));
    assert_eq!(d.layer_id, 0);
}
