//! The device filter: a single process-wide configuration cell.
//!
//! User space writes the device id of the watched filesystem exactly once,
//! before any hook runs; every hook invocation reads it. While the cell is
//! unset the hooks treat every event as filtered out, so no device
//! configured means no events (fail-closed), not an error.

use vstd::prelude::*;

verus! {

/// The configuration cell holding the device id under watch, if any.
pub struct DeviceFilter {
    dev: Option<u32>,
}

impl DeviceFilter {
    /// The configured device id: `None` while the cell is unset.
    pub closed spec fn view(self) -> Option<u32> {
        self.dev
    }

    /// A fresh, unset cell: the state before bootstrap completes.
    pub fn new() -> (f: DeviceFilter)
        ensures
            f@ == None::<u32>,
    {
        DeviceFilter { dev: None }
    }

    /// Writes the device id. Called exactly once, before hooks attach, so
    /// the cell must still be unset.
    pub fn set(&mut self, dev: u32)
        requires
            old(self)@ == None::<u32>,
        ensures
            final(self)@ == Some(dev),
    {
        self.dev = Some(dev);
    }

    /// Reads the configured device id, if any.
    pub fn get(&self) -> (dev: Option<u32>)
        ensures
            dev == self@,
    {
        self.dev
    }
}

} // verus!
