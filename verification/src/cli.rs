//! The command-line options and the working mode they select. Argument
//! parsing itself lives outside the library; this is the parsed shape
//! the engine is configured from.

use vstd::prelude::*;

verus! {

/// The options the collector is started with.
pub struct Cli {
    /// Working mode, see `WorkingMode`.
    pub mode: String,
    /// Configuration file path, used in local mode.
    pub config: Option<String>,
    /// Seconds between data-collection rounds.
    pub interval: u8,
    /// Connection string of the cloud module; empty to use the module's
    /// environment.
    pub connection_string: String,
    /// The collector's own IPv4 address.
    pub src_ip_address: String,
}

/// Where telemetry goes: to a cloud module or to a local sink fed from a
/// configuration file.
#[derive(Clone, Copy, Debug, PartialEq, Eq, Structural)]
pub enum WorkingMode {
    IotEdgeMode,
    LocalMode,
}

impl WorkingMode {
    /// The mode a flag value names; only "iotedge" and "local" are
    /// understood.
    pub fn from_str(s: &String) -> (r: Option<WorkingMode>)
        ensures
            r == Some(WorkingMode::IotEdgeMode) <==> s@ == "iotedge"@,
            r == Some(WorkingMode::LocalMode) <==> s@ == "local"@,
            r is None <==> s@ != "iotedge"@ && s@ != "local"@,
    {
        let iotedge: String = String::from_str("iotedge");
        let local: String = String::from_str("local");
        proof {
            reveal_strlit("iotedge");
            reveal_strlit("local");
            assert("iotedge"@.len() == 7);
            assert("local"@.len() == 5);
            assert("iotedge"@ != "local"@);
        }
        if iotedge.eq(s) {
            Some(WorkingMode::IotEdgeMode)
        } else if local.eq(s) {
            Some(WorkingMode::LocalMode)
        } else {
            None
        }
    }
}

} // verus!
