use vstd::prelude::*;

verus! {

/// Which of the two cameras renders: the one that follows the player or the
/// free-flying one.
#[derive(Clone, Copy, Debug, PartialEq, Eq, Structural)]
pub struct CameraSwitch {
    pub player_active: bool,
    pub free_active: bool,
}

/// The state after one press of the camera-switch key: when the player
/// camera is active the free camera takes over, otherwise the player camera
/// does.
pub open spec fn toggled(c: CameraSwitch) -> CameraSwitch {
    if c.player_active {
        CameraSwitch { player_active: false, free_active: true }
    } else {
        CameraSwitch { player_active: true, free_active: false }
    }
}

/// The state after `n` presses of the camera-switch key.
pub open spec fn toggled_times(c: CameraSwitch, n: nat) -> CameraSwitch
    decreases n,
{
    if n == 0 {
        c
    } else {
        toggled(toggled_times(c, (n - 1) as nat))
    }
}

impl CameraSwitch {
    /// Exactly one of the two cameras is active.
    pub open spec fn wf(self) -> bool {
        self.player_active != self.free_active
    }

    /// Handles one press of the camera-switch key.
    pub fn toggle(&mut self)
        ensures
            *final(self) == toggled(*old(self)),
            final(self).wf(),
            old(self).wf() ==> final(self).player_active == !old(self).player_active,
    {
        if self.player_active {
            self.player_active = false;
            self.free_active = true;
        } else {
            self.player_active = true;
            self.free_active = false;
        }
    }
}

/// Pressing the camera-switch key an even number of times restores the
/// active camera; an odd number of times swaps it.
pub proof fn lemma_toggle_parity(c: CameraSwitch, n: nat)
    requires
        c.wf(),
    ensures
        n % 2 == 0 ==> toggled_times(c, n) == c,
        n % 2 == 1 ==> toggled_times(c, n) == toggled(c),
    decreases n,
{
    if n > 0 {
        lemma_toggle_parity(c, (n - 1) as nat);
    }
}

} // verus!
