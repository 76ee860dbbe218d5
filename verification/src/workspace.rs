use vstd::prelude::*;

use crate::drag::DragState;
use crate::layer::Layer;

verus! {

/// Number of layers created at mount.
pub const LAYER_COUNT: usize = 5;

/// Position and depth stagger of the initial layers: layer `i` starts at
/// `(BASE_X + i * STEP_X, BASE_Y + i * STEP_Y)` with depth `i`.
pub const BASE_X: i32 = 50;

pub const BASE_Y: i32 = 50;

pub const STEP_X: i32 = 120;

pub const STEP_Y: i32 = 80;

/// The container/document-scoped gesture listeners (pointer-move and
/// pointer-up), registered exactly once per mount.
pub const GLOBAL_LISTENER_COUNT: usize = 2;

/// The mathematical state of a workspace: the layer sequence in creation
/// order, the selection, the drag-gesture state, and how many gesture
/// subscriptions the workspace currently holds with the host.
#[verifier::ext_equal]
pub ghost struct WorkspaceView {
    pub layers: Seq<Layer>,
    pub selected: Option<usize>,
    pub drag: DragState,
    pub subscriptions: usize,
}

/// The selection invariant: `selected`, when present, is a valid index, that
/// layer is the one and only selected layer; with no selection, no layer is
/// selected.
pub open spec fn selection_ok(v: WorkspaceView) -> bool {
    match v.selected {
        Some(i) => (i as int) < v.layers.len() && v.layers[i as int].selected && (forall|j: int|
            0 <= j < v.layers.len() && j != i as int ==> !(#[trigger] v.layers[j]).selected),
        None => forall|j: int| 0 <= j < v.layers.len() ==> !(#[trigger] v.layers[j]).selected,
    }
}

/// Layer ids equal their creation-order position.
pub open spec fn ids_ok(v: WorkspaceView) -> bool {
    forall|j: int| 0 <= j < v.layers.len() ==> (#[trigger] v.layers[j]).id == j
}

/// A drag in progress always targets an existing layer.
pub open spec fn drag_ok(v: WorkspaceView) -> bool {
    v.drag.dragging ==> (v.drag.layer_id as int) < v.layers.len()
}

/// Well-formedness of a workspace state.
pub open spec fn inv(v: WorkspaceView) -> bool {
    selection_ok(v) && ids_ok(v) && drag_ok(v)
}

/// Maximum depth across the layers; 0 when there are none.
pub open spec fn max_depth(layers: Seq<Layer>) -> int
    decreases layers.len(),
{
    if layers.len() == 0 {
        0
    } else if layers.len() == 1 {
        layers[0].z_index as int
    } else {
        let rest = max_depth(layers.drop_last());
        if layers.last().z_index as int > rest {
            layers.last().z_index as int
        } else {
            rest
        }
    }
}

/// Minimum depth across the layers; 0 when there are none.
pub open spec fn min_depth(layers: Seq<Layer>) -> int
    decreases layers.len(),
{
    if layers.len() == 0 {
        0
    } else if layers.len() == 1 {
        layers[0].z_index as int
    } else {
        let rest = min_depth(layers.drop_last());
        if (layers.last().z_index as int) < rest {
            layers.last().z_index as int
        } else {
            rest
        }
    }
}

/// Layer `i` of a fresh mount.
pub open spec fn initial_layer(i: int) -> Layer {
    Layer {
        id: i as usize,
        x: (BASE_X as int + STEP_X as int * i) as i32,
        y: (BASE_Y as int + STEP_Y as int * i) as i32,
        z_index: i as i32,
        selected: false,
    }
}

/// The staggered layer set a mount creates, before the default selection.
pub open spec fn initial_layers() -> Seq<Layer> {
    Seq::new(LAYER_COUNT as nat, |i: int| initial_layer(i))
}

/// The state after a mount has created its layers and registered its
/// listeners, before the first layer is selected.
pub open spec fn premount_view() -> WorkspaceView {
    WorkspaceView {
        layers: initial_layers(),
        selected: None,
        drag: DragState::idle(),
        subscriptions: (LAYER_COUNT + GLOBAL_LISTENER_COUNT) as usize,
    }
}

/// The state after a completed mount, whatever preceded it.
pub open spec fn mounted_view() -> WorkspaceView {
    select_transition(premount_view(), 0)
}

/// The state of a workspace that is not mounted: no layers, no selection, no
/// drag in progress, no live subscriptions.
pub open spec fn unmounted_view() -> WorkspaceView {
    WorkspaceView {
        layers: Seq::empty(),
        selected: None,
        drag: DragState::idle(),
        subscriptions: 0,
    }
}

/// What `select_layer(index)` does to a state: out-of-bounds indices change
/// nothing; otherwise the previous selection (if any) is cleared first and
/// the layer at `index` becomes the selection.
pub open spec fn select_transition(v: WorkspaceView, index: usize) -> WorkspaceView {
    if index as int >= v.layers.len() {
        v
    } else {
        let cleared = match v.selected {
            Some(p) => if (p as int) < v.layers.len() {
                v.layers.update(p as int, v.layers[p as int].with_selected(false))
            } else {
                v.layers
            },
            None => v.layers,
        };
        WorkspaceView {
            layers: cleared.update(index as int, cleared[index as int].with_selected(true)),
            selected: Some(index),
            ..v
        }
    }
}

/// What `update_selected_position(axis, value)` does to a state: with no
/// selection, or with an axis other than "x" or "y", nothing; otherwise only
/// the named coordinate of the selected layer changes.
pub open spec fn update_axis_transition(v: WorkspaceView, axis: Seq<char>, value: i32) -> WorkspaceView {
    match v.selected {
        Some(i) => if (i as int) < v.layers.len() {
            let l = v.layers[i as int];
            if axis == "x"@ {
                WorkspaceView { layers: v.layers.update(i as int, l.with_position(value, l.y)), ..v }
            } else if axis == "y"@ {
                WorkspaceView { layers: v.layers.update(i as int, l.with_position(l.x, value)), ..v }
            } else {
                v
            }
        } else {
            v
        },
        None => v,
    }
}

/// What `bring_to_front()` does to a state: with no selection, nothing;
/// otherwise the selected layer's depth becomes one more than the maximum
/// depth across all layers. The change is skipped only when that maximum is
/// already the largest representable depth.
pub open spec fn bring_to_front_transition(v: WorkspaceView) -> WorkspaceView {
    match v.selected {
        Some(i) => if (i as int) < v.layers.len() && max_depth(v.layers) < i32::MAX as int {
            WorkspaceView {
                layers: v.layers.update(
                    i as int,
                    v.layers[i as int].with_z_index((max_depth(v.layers) + 1) as i32),
                ),
                ..v
            }
        } else {
            v
        },
        None => v,
    }
}

/// What `send_to_back()` does to a state: symmetric to
/// `bring_to_front_transition`, one less than the minimum depth.
pub open spec fn send_to_back_transition(v: WorkspaceView) -> WorkspaceView {
    match v.selected {
        Some(i) => if (i as int) < v.layers.len() && min_depth(v.layers) > i32::MIN as int {
            WorkspaceView {
                layers: v.layers.update(
                    i as int,
                    v.layers[i as int].with_z_index((min_depth(v.layers) - 1) as i32),
                ),
                ..v
            }
        } else {
            v
        },
        None => v,
    }
}

/// What a pointer-down on layer `index` does to a state: the drag becomes
/// active with a freshly captured grab offset `pointer - layer origin`;
/// layers and selection are untouched.
pub open spec fn pointer_down_transition(
    v: WorkspaceView,
    index: usize,
    pointer_x: i32,
    pointer_y: i32,
    origin_x: i32,
    origin_y: i32,
) -> WorkspaceView {
    WorkspaceView {
        drag: DragState {
            dragging: true,
            start_x: (pointer_x - origin_x) as i32,
            start_y: (pointer_y - origin_y) as i32,
            layer_id: index,
        },
        ..v
    }
}

/// What a pointer-move does to a state: a no-op while idle; while dragging,
/// the dragged layer moves to `pointer - container origin - grab offset`.
pub open spec fn pointer_move_transition(
    v: WorkspaceView,
    pointer_x: i32,
    pointer_y: i32,
    container_x: i32,
    container_y: i32,
) -> WorkspaceView {
    if v.drag.dragging && (v.drag.layer_id as int) < v.layers.len() {
        let l = v.layers[v.drag.layer_id as int];
        WorkspaceView {
            layers: v.layers.update(
                v.drag.layer_id as int,
                l.with_position(
                    (pointer_x - container_x - v.drag.start_x) as i32,
                    (pointer_y - container_y - v.drag.start_y) as i32,
                ),
            ),
            ..v
        }
    } else {
        v
    }
}

/// What a pointer-up does to a state: the drag gesture ends; everything else
/// is untouched.
pub open spec fn pointer_up_transition(v: WorkspaceView) -> WorkspaceView {
    WorkspaceView { drag: v.drag.stopped(), ..v }
}

/// Every layer's depth is at most the maximum depth.
pub proof fn lemma_max_depth_ge(layers: Seq<Layer>, j: int)
    requires
        0 <= j < layers.len(),
    ensures
        max_depth(layers) >= layers[j].z_index as int,
    decreases layers.len(),
{
    if layers.len() > 1 && j < layers.len() - 1 {
        lemma_max_depth_ge(layers.drop_last(), j);
    }
}

/// Every layer's depth is at least the minimum depth.
pub proof fn lemma_min_depth_le(layers: Seq<Layer>, j: int)
    requires
        0 <= j < layers.len(),
    ensures
        min_depth(layers) <= layers[j].z_index as int,
    decreases layers.len(),
{
    if layers.len() > 1 && j < layers.len() - 1 {
        lemma_min_depth_le(layers.drop_last(), j);
    }
}

/// The workspace: owns the layer collection (creation order), the selection,
/// the drag controller's state, and a count of the gesture subscriptions it
/// holds with the host. All commands mutate this in-memory state; reflecting
/// the state on a rendering surface is the host's concern.
pub struct Workspace {
    layers: Vec<Layer>,
    selected_layer: Option<usize>,
    drag: DragState,
    subscriptions: usize,
}

impl View for Workspace {
    type V = WorkspaceView;

    closed spec fn view(&self) -> WorkspaceView {
        WorkspaceView {
            layers: self.layers@,
            selected: self.selected_layer,
            drag: self.drag,
            subscriptions: self.subscriptions,
        }
    }
}

impl Workspace {
    /// Well-formedness: the single-selection, id and drag-target invariants.
    pub open spec fn wf(&self) -> bool {
        inv(self@)
    }

    /// A fresh, unmounted workspace.
    pub fn new() -> (w: Workspace)
        ensures
            w@ == unmounted_view(),
            w.wf(),
    {
        let w = Workspace {
            layers: Vec::new(),
            selected_layer: None,
            drag: DragState::new(),
            subscriptions: 0,
        };
        proof {
            assert(w@ =~= unmounted_view());
        }
        w
    }

    /// Unmounts: releases all gesture subscriptions, clears the layers,
    /// clears the selection and force-ends any drag in progress. Safe to call
    /// when not mounted.
    pub fn unmount(&mut self)
        ensures
            final(self)@ == unmounted_view(),
            final(self).wf(),
    {
        self.layers = Vec::new();
        self.selected_layer = None;
        self.drag = DragState::new();
        self.subscriptions = 0;
        proof {
            assert(self@ =~= unmounted_view());
        }
    }

    /// Mounts: first fully unmounts (re-entrant mount is defined behavior),
    /// then creates the staggered initial layers, registers one pointer-down
    /// subscription per layer plus the two global gesture subscriptions, and
    /// selects the first layer by default. The resulting state is the same
    /// whatever preceded the call.
    pub fn mount(&mut self)
        ensures
            final(self)@ == mounted_view(),
            final(self).wf(),
    {
        self.unmount();
        let mut i: usize = 0;
        while i < LAYER_COUNT
            invariant
                i <= LAYER_COUNT,
                self.layers@.len() == i,
                forall|j: int| 0 <= j < i ==> self.layers@[j] == initial_layer(j),
                self.selected_layer is None,
                self.drag == DragState::idle(),
                self.subscriptions == 0usize,
            decreases LAYER_COUNT - i,
        {
            let x = BASE_X + (i as i32) * STEP_X;
            let y = BASE_Y + (i as i32) * STEP_Y;
            let l = Layer::new(i, x, y, i as i32);
            self.layers.push(l);
            i = i + 1;
        }
        self.subscriptions = LAYER_COUNT + GLOBAL_LISTENER_COUNT;
        proof {
            assert(self@.layers =~= initial_layers());
            assert(self@ =~= premount_view());
        }
        self.select_layer(0);
    }

    /// Selects the layer at `index`. An out-of-bounds index is a request for
    /// no change, not an error: selection and all layer states stay as they
    /// were. Otherwise the previously selected layer (if any) is deselected
    /// first, so at most one layer is ever selected.
    pub fn select_layer(&mut self, index: usize)
        requires
            old(self).wf(),
        ensures
            final(self)@ == select_transition(old(self)@, index),
            final(self).wf(),
            index as int >= old(self)@.layers.len() ==> final(self)@ == old(self)@,
            (index as int) < old(self)@.layers.len() ==> {
                &&& final(self)@.selected == Some(index)
                &&& forall|j: int|
                    0 <= j < final(self)@.layers.len()
                        ==> ((#[trigger] final(self)@.layers[j]).selected <==> j == index as int)
                &&& forall|j: int|
                    0 <= j < final(self)@.layers.len() ==> (#[trigger] final(self)@.layers[j])
                        == old(self)@.layers[j].with_selected(j == index as int)
            },
    {
        if index >= self.layers.len() {
            return ;
        }
        if let Some(prev) = self.selected_layer {
            let mut l = self.layers[prev];
            l.set_selected(false);
            self.layers.set(prev, l);
        }
        let mut l = self.layers[index];
        l.set_selected(true);
        self.layers.set(index, l);
        self.selected_layer = Some(index);
        proof {
            assert(self@ =~= select_transition(old(self)@, index));
        }
    }

    /// Updates one coordinate of the selected layer: axis "x" changes only
    /// the x-coordinate, axis "y" only the y-coordinate. With no selection,
    /// or with an unrecognized axis, nothing changes (defined no-op, not an
    /// error).
    pub fn update_selected_position(&mut self, axis: &str, value: i32)
        requires
            old(self).wf(),
        ensures
            final(self)@ == update_axis_transition(old(self)@, axis@, value),
            final(self).wf(),
            old(self)@.selected is None ==> final(self)@ == old(self)@,
            axis@ != "x"@ && axis@ != "y"@ ==> final(self)@ == old(self)@,
            old(self)@.selected matches Some(i) ==> axis@ == "x"@ ==> {
                &&& final(self)@.layers[i as int].x == value
                &&& final(self)@.layers[i as int].y == old(self)@.layers[i as int].y
                &&& final(self)@.layers == old(self)@.layers.update(
                    i as int,
                    old(self)@.layers[i as int].with_position(value, old(self)@.layers[i as int].y),
                )
            },
            old(self)@.selected matches Some(i) ==> axis@ == "y"@ ==> {
                &&& final(self)@.layers[i as int].y == value
                &&& final(self)@.layers[i as int].x == old(self)@.layers[i as int].x
                &&& final(self)@.layers == old(self)@.layers.update(
                    i as int,
                    old(self)@.layers[i as int].with_position(old(self)@.layers[i as int].x, value),
                )
            },
            final(self)@.selected == old(self)@.selected,
            final(self)@.drag == old(self)@.drag,
    {
        proof {
            reveal_strlit("x");
            reveal_strlit("y");
            assert("x"@[0] == 'x');
            assert("y"@[0] == 'y');
            assert("x"@ != "y"@);
        }
        if let Some(idx) = self.selected_layer {
            let ax = axis.to_owned();
            if ax == "x".to_owned() {
                let mut l = self.layers[idx];
                l.set_position(value, l.y);
                self.layers.set(idx, l);
            } else if ax == "y".to_owned() {
                let mut l = self.layers[idx];
                let lx = l.x;
                l.set_position(lx, value);
                self.layers.set(idx, l);
            }
        }
    }

    /// Raises the selected layer above every other layer: its depth becomes
    /// the maximum depth across all layers plus one. With no selection,
    /// nothing changes. The one depth with no strictly greater one, the
    /// largest representable, is left as it is rather than overflowed.
    pub fn bring_to_front(&mut self)
        requires
            old(self).wf(),
        ensures
            final(self)@ == bring_to_front_transition(old(self)@),
            final(self).wf(),
            old(self)@.selected is None ==> final(self)@ == old(self)@,
            old(self)@.selected matches Some(i) ==> max_depth(old(self)@.layers) < i32::MAX as int
                ==> {
                &&& final(self)@.layers[i as int].z_index as int == max_depth(old(self)@.layers) + 1
                &&& forall|j: int|
                    0 <= j < final(self)@.layers.len() && j != i as int
                        ==> final(self)@.layers[i as int].z_index
                        > (#[trigger] final(self)@.layers[j]).z_index
                &&& final(self)@.layers == old(self)@.layers.update(
                    i as int,
                    old(self)@.layers[i as int].with_z_index(
                        (max_depth(old(self)@.layers) + 1) as i32,
                    ),
                )
            },
            final(self)@.selected == old(self)@.selected,
            final(self)@.drag == old(self)@.drag,
    {
        if let Some(idx) = self.selected_layer {
            let max_z = self.max_z_index();
            if max_z < i32::MAX {
                let mut l = self.layers[idx];
                l.set_z_index(max_z + 1);
                self.layers.set(idx, l);
                proof {
                    assert forall|j: int|
                        0 <= j < self@.layers.len() && j != idx as int implies self@.layers[idx as int].z_index
                        > (#[trigger] self@.layers[j]).z_index by {
                        lemma_max_depth_ge(old(self)@.layers, j);
                    }
                }
            }
        }
    }

    /// Lowers the selected layer below every other layer: its depth becomes
    /// the minimum depth across all layers minus one. Symmetric to
    /// `bring_to_front`.
    pub fn send_to_back(&mut self)
        requires
            old(self).wf(),
        ensures
            final(self)@ == send_to_back_transition(old(self)@),
            final(self).wf(),
            old(self)@.selected is None ==> final(self)@ == old(self)@,
            old(self)@.selected matches Some(i) ==> min_depth(old(self)@.layers) > i32::MIN as int
                ==> {
                &&& final(self)@.layers[i as int].z_index as int == min_depth(old(self)@.layers) - 1
                &&& forall|j: int|
                    0 <= j < final(self)@.layers.len() && j != i as int
                        ==> final(self)@.layers[i as int].z_index
                        < (#[trigger] final(self)@.layers[j]).z_index
                &&& final(self)@.layers == old(self)@.layers.update(
                    i as int,
                    old(self)@.layers[i as int].with_z_index(
                        (min_depth(old(self)@.layers) - 1) as i32,
                    ),
                )
            },
            final(self)@.selected == old(self)@.selected,
            final(self)@.drag == old(self)@.drag,
    {
        if let Some(idx) = self.selected_layer {
            let min_z = self.min_z_index();
            if min_z > i32::MIN {
                let mut l = self.layers[idx];
                l.set_z_index(min_z - 1);
                self.layers.set(idx, l);
                proof {
                    assert forall|j: int|
                        0 <= j < self@.layers.len() && j != idx as int implies self@.layers[idx as int].z_index
                        < (#[trigger] self@.layers[j]).z_index by {
                        lemma_min_depth_le(old(self)@.layers, j);
                    }
                }
            }
        }
    }

    /// A pointer-down on the layer at `index`: enters the dragging state,
    /// capturing the grab offset `pointer - layer origin` fresh (nothing of a
    /// previous gesture carries over). Coordinates are viewport-relative.
    pub fn pointer_down(
        &mut self,
        index: usize,
        pointer_x: i32,
        pointer_y: i32,
        origin_x: i32,
        origin_y: i32,
    )
        requires
            old(self).wf(),
            index < old(self)@.layers.len(),
            i32::MIN <= pointer_x - origin_x <= i32::MAX,
            i32::MIN <= pointer_y - origin_y <= i32::MAX,
        ensures
            final(self)@ == pointer_down_transition(
                old(self)@,
                index,
                pointer_x,
                pointer_y,
                origin_x,
                origin_y,
            ),
            final(self).wf(),
            final(self)@.layers == old(self)@.layers,
            final(self)@.selected == old(self)@.selected,
            final(self)@.drag == (DragState {
                dragging: true,
                start_x: (pointer_x - origin_x) as i32,
                start_y: (pointer_y - origin_y) as i32,
                layer_id: index,
            }),
    {
        let dx = pointer_x - origin_x;
        let dy = pointer_y - origin_y;
        self.drag.start(dx, dy, index);
    }

    /// A pointer-move, delivered globally: a cheap no-op while idle; while
    /// dragging, moves the dragged layer to
    /// `pointer - container origin - grab offset` (viewport coordinates).
    pub fn pointer_move(
        &mut self,
        pointer_x: i32,
        pointer_y: i32,
        container_x: i32,
        container_y: i32,
    )
        requires
            old(self).wf(),
            old(self)@.drag.dragging ==> i32::MIN <= pointer_x - container_x
                - old(self)@.drag.start_x <= i32::MAX,
            old(self)@.drag.dragging ==> i32::MIN <= pointer_y - container_y
                - old(self)@.drag.start_y <= i32::MAX,
        ensures
            final(self)@ == pointer_move_transition(
                old(self)@,
                pointer_x,
                pointer_y,
                container_x,
                container_y,
            ),
            final(self).wf(),
            !old(self)@.drag.dragging ==> final(self)@ == old(self)@,
            old(self)@.drag.dragging ==> {
                let lid = old(self)@.drag.layer_id as int;
                &&& final(self)@.layers[lid].x == pointer_x - container_x - old(self)@.drag.start_x
                &&& final(self)@.layers[lid].y == pointer_y - container_y - old(self)@.drag.start_y
                &&& final(self)@.layers == old(self)@.layers.update(
                    lid,
                    old(self)@.layers[lid].with_position(
                        (pointer_x - container_x - old(self)@.drag.start_x) as i32,
                        (pointer_y - container_y - old(self)@.drag.start_y) as i32,
                    ),
                )
            },
            final(self)@.selected == old(self)@.selected,
            final(self)@.drag == old(self)@.drag,
    {
        if self.drag.dragging {
            let nx = ((pointer_x as i64) - (container_x as i64) - (self.drag.start_x as i64))
                as i32;
            let ny = ((pointer_y as i64) - (container_y as i64) - (self.drag.start_y as i64))
                as i32;
            let lid = self.drag.layer_id;
            let mut l = self.layers[lid];
            l.set_position(nx, ny);
            self.layers.set(lid, l);
        }
    }

    /// A pointer-up, delivered globally: ends the drag gesture, wherever the
    /// pointer is. Layers and selection are untouched.
    pub fn pointer_up(&mut self)
        requires
            old(self).wf(),
        ensures
            final(self)@ == pointer_up_transition(old(self)@),
            final(self).wf(),
            !final(self)@.drag.dragging,
            final(self)@.layers == old(self)@.layers,
            final(self)@.selected == old(self)@.selected,
    {
        if self.drag.dragging {
            self.drag.stop();
        }
    }

    /// How many layers the workspace holds.
    pub fn layer_count(&self) -> (n: usize)
        ensures
            n == self@.layers.len(),
    {
        self.layers.len()
    }

    /// The layer at `index` (creation order).
    pub fn layer(&self, index: usize) -> (l: Layer)
        requires
            index < self@.layers.len(),
        ensures
            l == self@.layers[index as int],
    {
        self.layers[index]
    }

    /// The index of the selected layer, if any.
    pub fn selected_index(&self) -> (s: Option<usize>)
        ensures
            s == self@.selected,
    {
        self.selected_layer
    }

    /// The current drag-gesture state.
    pub fn drag_state(&self) -> (d: DragState)
        ensures
            d == self@.drag,
    {
        self.drag
    }

    /// How many gesture subscriptions the workspace holds with the host.
    pub fn subscription_count(&self) -> (n: usize)
        ensures
            n == self@.subscriptions,
    {
        self.subscriptions
    }

    /// The maximum depth across the layers.
    fn max_z_index(&self) -> (r: i32)
        requires
            self@.layers.len() > 0,
        ensures
            r as int == max_depth(self@.layers),
    {
        let mut max_z = self.layers[0].z_index;
        let mut i: usize = 1;
        while i < self.layers.len()
            invariant
                1 <= i <= self@.layers.len(),
                max_z as int == max_depth(self@.layers.take(i as int)),
            decreases self@.layers.len() - i,
        {
            proof {
                assert(self@.layers.take(i + 1).drop_last() =~= self@.layers.take(i as int));
                assert(self@.layers.take(i + 1).last() == self@.layers[i as int]);
            }
            let z = self.layers[i].z_index;
            if z > max_z {
                max_z = z;
            }
            i = i + 1;
        }
        proof {
            assert(self@.layers.take(self@.layers.len() as int) =~= self@.layers);
        }
        max_z
    }

    /// The minimum depth across the layers.
    fn min_z_index(&self) -> (r: i32)
        requires
            self@.layers.len() > 0,
        ensures
            r as int == min_depth(self@.layers),
    {
        let mut min_z = self.layers[0].z_index;
        let mut i: usize = 1;
        while i < self.layers.len()
            invariant
                1 <= i <= self@.layers.len(),
                min_z as int == min_depth(self@.layers.take(i as int)),
            decreases self@.layers.len() - i,
        {
            proof {
                assert(self@.layers.take(i + 1).drop_last() =~= self@.layers.take(i as int));
                assert(self@.layers.take(i + 1).last() == self@.layers[i as int]);
            }
            let z = self.layers[i].z_index;
            if z < min_z {
                min_z = z;
            }
            i = i + 1;
        }
        proof {
            assert(self@.layers.take(self@.layers.len() as int) =~= self@.layers);
        }
        min_z
    }
}

} // verus!
