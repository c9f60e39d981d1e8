//! The wire protocols a probe can speak to a target's debug access port.

use vstd::prelude::*;

verus! {

/// A wire protocol between the probe and the target.
#[derive(Clone, Copy, PartialEq, Eq, Structural, Debug)]
pub enum WireProtocol {
    Jtag,
    Swd,
}

} // verus!
