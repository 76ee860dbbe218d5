use vstd::prelude::*;

verus! {

/// Transient drag-gesture state.
///
/// `start_x` / `start_y` hold the grab offset: the pointer-to-layer-origin
/// offset captured at gesture start, in viewport coordinates. `layer_id`
/// names the layer being dragged. Both are meaningful only while `dragging`.
#[derive(Clone, Copy, PartialEq, Eq, Structural, Debug)]
pub struct DragState {
    pub dragging: bool,
    pub start_x: i32,
    pub start_y: i32,
    pub layer_id: usize,
}

impl DragState {
    /// The idle state: no gesture in progress, zeroed capture fields.
    pub open spec fn idle() -> DragState {
        DragState { dragging: false, start_x: 0, start_y: 0, layer_id: 0 }
    }

    /// The same state with the gesture ended; the capture fields are stale
    /// and are overwritten by the next `start`.
    pub open spec fn stopped(self) -> DragState {
        DragState { dragging: false, ..self }
    }

    /// A fresh, idle drag state.
    pub fn new() -> (d: DragState)
        ensures
            d == DragState::idle(),
    {
        DragState { dragging: false, start_x: 0, start_y: 0, layer_id: 0 }
    }

    /// Begins a gesture on `layer_id` with grab offset `(x, y)`. The offset
    /// is captured fresh on every start: nothing of a previous gesture
    /// carries over.
    pub fn start(&mut self, x: i32, y: i32, layer_id: usize)
        ensures
            *final(self) == (DragState { dragging: true, start_x: x, start_y: y, layer_id }),
    {
        self.dragging = true;
        self.start_x = x;
        self.start_y = y;
        self.layer_id = layer_id;
    }

    /// Ends the gesture, if any.
    pub fn stop(&mut self)
        ensures
            *final(self) == old(self).stopped(),
    {
        self.dragging = false;
    }
}

} // verus!
