//! The module-twin document shape the control plane pushes: a desired
//! and a reported section, each carrying a configuration list and a
//! version. Rendering to and from the wire lives outside the library;
//! the engine consumes the desired configuration list.

use vstd::prelude::*;
use crate::config::Config;

verus! {

pub struct ModuleTwin {
    pub desired: Desired,
    pub reported: Reported,
}

pub struct Desired {
    pub config: Vec<Config>,
    pub version: u16,
}

pub struct Reported {
    /// Absent until the module has reported a configuration back.
    pub config: Option<Vec<Config>>,
    pub version: u16,
}

} // verus!
