use vstd::prelude::*;

verus! {

/// One positioned, depth-ordered, selectable panel.
///
/// `x` and `y` are integer offsets relative to the container's origin; any
/// integer is allowed (no bounds checking or clamping). `z_index` is the
/// stacking order: higher draws on top; values may repeat or have gaps.
/// At most one layer of a workspace has `selected == true`; that exclusivity
/// is enforced by the workspace, not by the layer itself.
#[derive(Clone, Copy, PartialEq, Eq, Structural, Debug)]
pub struct Layer {
    pub id: usize,
    pub x: i32,
    pub y: i32,
    pub z_index: i32,
    pub selected: bool,
}

impl Layer {
    /// The same layer moved to `(x, y)`.
    pub open spec fn with_position(self, x: i32, y: i32) -> Layer {
        Layer { x, y, ..self }
    }

    /// The same layer restacked at depth `z_index`.
    pub open spec fn with_z_index(self, z_index: i32) -> Layer {
        Layer { z_index, ..self }
    }

    /// The same layer with its selection flag set to `selected`.
    pub open spec fn with_selected(self, selected: bool) -> Layer {
        Layer { selected, ..self }
    }

    /// A fresh, unselected layer.
    pub fn new(id: usize, x: i32, y: i32, z_index: i32) -> (l: Layer)
        ensures
            l == (Layer { id, x, y, z_index, selected: false }),
    {
        Layer { id, x, y, z_index, selected: false }
    }

    /// Moves the layer to `(x, y)`. Total: any integer coordinates are allowed.
    pub fn set_position(&mut self, x: i32, y: i32)
        ensures
            *final(self) == old(self).with_position(x, y),
    {
        self.x = x;
        self.y = y;
    }

    /// Restacks the layer at depth `z_index`. Total.
    pub fn set_z_index(&mut self, z_index: i32)
        ensures
            *final(self) == old(self).with_z_index(z_index),
    {
        self.z_index = z_index;
    }

    /// Sets the selection flag. The single-selection invariant across a
    /// workspace is the workspace's responsibility.
    pub fn set_selected(&mut self, selected: bool)
        ensures
            *final(self) == old(self).with_selected(selected),
    {
        self.selected = selected;
    }
}

} // verus!
