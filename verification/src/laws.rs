use vstd::prelude::*;

use crate::drag::DragState;
use crate::workspace::{
    inv, mounted_view, pointer_down_transition, pointer_move_transition, pointer_up_transition,
    select_transition, unmounted_view, initial_layer, WorkspaceView, GLOBAL_LISTENER_COUNT,
    LAYER_COUNT,
};

verus! {

/// At most one layer of the state is selected.
pub open spec fn at_most_one_selected(v: WorkspaceView) -> bool {
    forall|i: int, j: int|
        0 <= i < v.layers.len() && 0 <= j < v.layers.len() && (#[trigger] v.layers[i]).selected
            && (#[trigger] v.layers[j]).selected ==> i == j
}

/// A well-formed workspace has at most one selected layer.
pub proof fn lemma_wf_at_most_one_selected(v: WorkspaceView)
    requires
        inv(v),
    ensures
        at_most_one_selected(v),
{
}

/// Selecting a layer keeps the workspace well-formed, whatever the index.
pub proof fn lemma_select_preserves_inv(v: WorkspaceView, index: usize)
    requires
        inv(v),
    ensures
        inv(select_transition(v, index)),
{
}

/// The state after a sequence of `select_layer` calls, applied front to back.
pub open spec fn apply_selects(v: WorkspaceView, calls: Seq<usize>) -> WorkspaceView
    decreases calls.len(),
{
    if calls.len() == 0 {
        v
    } else {
        apply_selects(select_transition(v, calls[0]), calls.drop_first())
    }
}

/// For every sequence of `select_layer` calls on a well-formed workspace, the
/// state after each call is well-formed and has at most one selected layer
/// (every intermediate state is `apply_selects` of a shorter sequence, so the
/// law covers each step of the sequence).
pub proof fn lemma_selects_keep_selection_exclusive(v: WorkspaceView, calls: Seq<usize>)
    requires
        inv(v),
    ensures
        inv(apply_selects(v, calls)),
        at_most_one_selected(apply_selects(v, calls)),
    decreases calls.len(),
{
    if calls.len() > 0 {
        lemma_select_preserves_inv(v, calls[0]);
        lemma_selects_keep_selection_exclusive(select_transition(v, calls[0]), calls.drop_first());
    }
    lemma_wf_at_most_one_selected(apply_selects(v, calls));
}

/// Drag round-trip: a drag started at pointer `(p0x, p0y)` over a layer whose
/// viewport origin is `(o0x, o0y)`, then moved to pointer `(p1x, p1y)` with
/// the container at `(cx, cy)`, puts the layer at
/// `(p1 - container origin) - (p0 - layer origin)` on each axis.
pub proof fn lemma_drag_round_trip(
    v: WorkspaceView,
    index: usize,
    p0x: i32,
    p0y: i32,
    o0x: i32,
    o0y: i32,
    p1x: i32,
    p1y: i32,
    cx: i32,
    cy: i32,
)
    requires
        inv(v),
        index < v.layers.len(),
        i32::MIN <= p0x - o0x <= i32::MAX,
        i32::MIN <= p0y - o0y <= i32::MAX,
        i32::MIN <= (p1x - cx) - (p0x - o0x) <= i32::MAX,
        i32::MIN <= (p1y - cy) - (p0y - o0y) <= i32::MAX,
    ensures
        ({
            let moved = pointer_move_transition(
                pointer_down_transition(v, index, p0x, p0y, o0x, o0y),
                p1x,
                p1y,
                cx,
                cy,
            );
            &&& moved.layers[index as int].x == (p1x - cx) - (p0x - o0x)
            &&& moved.layers[index as int].y == (p1y - cy) - (p0y - o0y)
        }),
{
}

/// The grab offset is recomputed fresh at every gesture start: the drag state
/// a pointer-down produces depends only on the pointer-down's own arguments,
/// never on what was dragged before (in particular, not on a just-ended
/// gesture).
pub proof fn lemma_grab_offset_fresh(
    v: WorkspaceView,
    w: WorkspaceView,
    index: usize,
    px: i32,
    py: i32,
    ox: i32,
    oy: i32,
)
    ensures
        pointer_down_transition(pointer_up_transition(v), index, px, py, ox, oy).drag
            == pointer_down_transition(w, index, px, py, ox, oy).drag,
{
}

/// Unmounting and remounting yields a fresh state: a mount produces the one
/// mounted state whatever preceded it, with the default layer count, the
/// staggered initial layers, the first layer selected, no drag in progress,
/// and the full set of gesture subscriptions; an unmounted workspace holds no
/// subscriptions at all.
pub proof fn lemma_mount_shape()
    ensures
        mounted_view().layers.len() == LAYER_COUNT,
        mounted_view().selected == Some(0usize),
        forall|j: int|
            0 <= j < LAYER_COUNT ==> (#[trigger] mounted_view().layers[j]) == initial_layer(
                j,
            ).with_selected(j == 0),
        mounted_view().drag == DragState::idle(),
        mounted_view().subscriptions == LAYER_COUNT + GLOBAL_LISTENER_COUNT,
        unmounted_view().subscriptions == 0,
        inv(mounted_view()),
{
    assert forall|j: int| 0 <= j < LAYER_COUNT implies (#[trigger] mounted_view().layers[j])
        == initial_layer(j).with_selected(j == 0) by {
        if j != 0 {
            assert(initial_layer(j).with_selected(false) == initial_layer(j));
        }
    }
}

} // verus!
