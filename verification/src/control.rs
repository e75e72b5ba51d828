//! Control intents: the seven independent booleans a ship acts on each
//! tick, and the scripted intent providers. Human input is sampled outside
//! the core and arrives here already mapped to a `ShipControl`.

use vstd::prelude::*;

verus! {

/// One tick's worth of intent for one ship. Any combination may be active
/// at once.
#[derive(Clone, Copy, Debug, PartialEq, Eq, Structural)]
pub struct ShipControl {
    pub thrust_forward: bool,
    pub thrust_aft: bool,
    pub thrust_left: bool,
    pub thrust_right: bool,
    pub rotate_left: bool,
    pub rotate_right: bool,
    pub fire: bool,
}

pub open spec fn spec_idle_control() -> ShipControl {
    ShipControl {
        thrust_forward: false,
        thrust_aft: false,
        thrust_left: false,
        thrust_right: false,
        rotate_left: false,
        rotate_right: false,
        fire: false,
    }
}

impl Default for ShipControl {
    /// No intent at all.
    fn default() -> (r: ShipControl)
        ensures
            r == spec_idle_control(),
    {
        ShipControl {
            thrust_forward: false,
            thrust_aft: false,
            thrust_left: false,
            thrust_right: false,
            rotate_left: false,
            rotate_right: false,
            fire: false,
        }
    }
}

/// The fallback intent provider: do nothing.
pub fn default_controller() -> (r: ShipControl)
    ensures
        r == spec_idle_control(),
{
    ShipControl::default()
}

/// A deliberately unhinged scripted pilot: every thruster open, guns
/// blazing, spinning hard to starboard.
pub fn hillarius() -> (r: ShipControl)
    ensures
        r == (ShipControl {
            thrust_forward: true,
            thrust_aft: true,
            thrust_left: true,
            thrust_right: true,
            rotate_left: false,
            rotate_right: true,
            fire: true,
        }),
{
    ShipControl {
        thrust_forward: true,
        thrust_aft: true,
        thrust_left: true,
        thrust_right: true,
        rotate_left: false,
        rotate_right: true,
        fire: true,
    }
}

} // verus!
