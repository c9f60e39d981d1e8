//! The generic debug-probe abstraction consumed by callers that enumerate
//! and select among probe implementations.

use vstd::prelude::*;
use vstd::string::StringExecFns;

use crate::protocol::WireProtocol;

verus! {

/// A failure of a probe session as seen by a consumer of [`DebugProbe`].
#[derive(PartialEq, Eq, Debug)]
pub enum ProbeError {
    NotConnected,
    ConnectionFailed(String),
}

/// The capability set of a debug probe: identity, connection lifecycle,
/// wire-protocol negotiation and clock selection.
pub trait DebugProbe: Sized {
    /// Enumerates every probe of this kind currently attached.
    fn get_all_connected_probes() -> Vec<Self>;

    /// The probe of this kind with the given unique id, if it is attached.
    fn get_probe_with_id(unique_id: usize) -> Option<Self>;

    /// The name of the probe's vendor.
    fn vendor_name(&self) -> String;

    /// The name of the probe product.
    fn product_name(&self) -> String;

    /// A human-readable description of the probe.
    fn description(&self) -> String {
        let mut s = self.vendor_name();
        s.append(" ");
        let product = self.product_name();
        s.append(product.as_str());
        s
    }

    /// The wire protocols this probe can speak.
    fn get_supported_wire_protocols(&self) -> Vec<WireProtocol>;

    /// Gets the unique id of a probe.
    fn unique_id(&self) -> usize;

    /// Returns the currently selected `WireProtocol` if the probe is
    /// connected, and an error otherwise.
    fn wire_protocol(&self) -> Result<WireProtocol, ProbeError>;

    /// Whether a debug session is currently open.
    fn is_connected(&self) -> bool;

    /// Opens a debug session on the probe.
    fn connect(&mut self) -> Result<(), ProbeError>;

    /// Closes the probe.
    fn close(&mut self);

    /// Sets the frequency for JTAG and SWD in Hz.
    fn set_clock(&mut self, frequency: usize);
}

/// A probe on which a debug session has been opened.
pub struct ConnectedProbe<P: DebugProbe> {
    debug_probe: P,
}

impl<P: DebugProbe> ConnectedProbe<P> {
    /// The probe this session runs on, as seen by specifications.
    pub closed spec fn spec_debug_probe(&self) -> P {
        self.debug_probe
    }

    /// Wraps a probe whose session the caller has opened.
    pub fn new(debug_probe: P) -> (r: Self)
        ensures
            r.spec_debug_probe() == debug_probe,
    {
        Self { debug_probe }
    }

    /// The probe this session runs on.
    pub fn debug_probe(&self) -> (r: &P)
        ensures
            *r == self.spec_debug_probe(),
    {
        &self.debug_probe
    }
}

} // verus!
