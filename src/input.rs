use vstd::prelude::*;

verus! {

/// The movement keys held down during a frame.
#[derive(Clone, Copy, Debug, PartialEq, Eq, Structural)]
pub struct MovementKeys {
    pub right: bool,
    pub left: bool,
    pub forward: bool,
    pub back: bool,
}

/// What the held keys write into the movement input: a new value for each
/// horizontal axis, or `None` where the axis keeps its value.
#[derive(Clone, Copy, Debug, PartialEq, Eq, Structural)]
pub struct AxisInput {
    pub x: Option<i8>,
    pub z: Option<i8>,
}

impl MovementKeys {
    /// Right sets x to 1 and left to -1, left winning when both are held;
    /// forward sets z to -1 and back to 1, back winning when both are held.
    pub open spec fn axes_spec(self) -> AxisInput {
        AxisInput {
            x: if self.left {
                Some(-1i8)
            } else if self.right {
                Some(1i8)
            } else {
                None
            },
            z: if self.back {
                Some(1i8)
            } else if self.forward {
                Some(-1i8)
            } else {
                None
            },
        }
    }

    pub fn axes(&self) -> (r: AxisInput)
        ensures
            r == self.axes_spec(),
    {
        let mut x: Option<i8> = None;
        let mut z: Option<i8> = None;
        if self.right {
            x = Some(1);
        }
        if self.left {
            x = Some(-1);
        }
        if self.forward {
            z = Some(-1);
        }
        if self.back {
            z = Some(1);
        }
        AxisInput { x, z }
    }
}

} // verus!
