//! The control-plane configuration: one record per PNIO controller, each
//! listing the HART channels behind it, and the key under which a channel
//! is stored. IPv4 addresses are carried numerically (`127.0.0.1` is
//! 0x7f00_0001); device names are the annotation bytes matched against
//! endpoint-mapper entries.

use vstd::prelude::*;

verus! {

/// The placeholder controller address of an unconfigured default entry;
/// such entries are never looked up.
pub const LOCALHOST_SENTINEL: u32 = 0x7f000001;

/// The key a channel is stored under: controller address, slot and
/// subslot.
#[derive(Debug, Clone, Copy, PartialEq, Eq, Structural)]
pub struct DeviceKey {
    pub ip: u32,
    pub slot: u16,
    pub subslot: u16,
}

/// One HART command to issue each polling round, with an optional write
/// payload.
pub struct HartCommand {
    pub number: u8,
    pub data: Option<Vec<u8>>,
}

/// The mathematical shape of a configured command.
pub struct HartCommandView {
    pub number: u8,
    pub data: Option<Seq<u8>>,
}

impl View for HartCommand {
    type V = HartCommandView;

    open spec fn view(&self) -> HartCommandView {
        HartCommandView {
            number: self.number,
            data: match self.data {
                Some(d) => Some(d@),
                None => None,
            },
        }
    }
}

/// The views of a command list.
pub open spec fn spec_command_views(cmds: Seq<HartCommand>) -> Seq<HartCommandView> {
    cmds.map_values(|c: HartCommand| c@)
}

/// Copies a command list element for element.
pub fn clone_hart_commands(cmds: &Vec<HartCommand>) -> (r: Vec<HartCommand>)
    ensures
        spec_command_views(r@) == spec_command_views(cmds@),
{
    let mut out: Vec<HartCommand> = Vec::new();
    let mut i: usize = 0;
    assert(spec_command_views(out@) =~~= spec_command_views(cmds@).take(0));
    while i < cmds.len()
        invariant
            i <= cmds@.len(),
            out@.len() == i,
            spec_command_views(out@) == spec_command_views(cmds@).take(i as int),
        decreases cmds@.len() - i,
    {
        let data: Option<Vec<u8>> = match &cmds[i].data {
            Some(d) => Some(crate::protocol::wire::copy_range(d, 0, d.len())),
            None => None,
        };
        let c = HartCommand { number: cmds[i].number, data };
        assert(c@ == cmds@[i as int]@) by {
            match cmds@[i as int].data {
                Some(d) => {
                    assert(d@.subrange(0, d@.len() as int) =~= d@);
                },
                None => {},
            }
        }
        let ghost prev = out@;
        out.push(c);
        proof {
            assert forall|k: int| 0 <= k < i + 1 implies spec_command_views(out@)[k]
                == spec_command_views(cmds@).take(i + 1)[k] by {
                if k < i {
                    assert(out@[k] == prev[k]);
                    assert(spec_command_views(prev)[k] == spec_command_views(cmds@).take(
                        i as int,
                    )[k]);
                } else {
                    assert(out@[k] == c);
                }
            }
            assert(spec_command_views(out@) =~= spec_command_views(cmds@).take(i + 1));
        }
        i = i + 1;
    }
    assert(spec_command_views(cmds@).take(cmds@.len() as int) =~~= spec_command_views(cmds@));
    out
}

/// One configured HART channel of a controller.
pub struct ConfigHartDevice {
    pub slot_number: u16,
    pub subslot_number: u16,
    pub hart_commands: Vec<HartCommand>,
    pub request_data_record_number: u16,
    pub response_data_record_number: u16,
    pub hart_device_name: String,
}

/// One controller with its lookup port, annotation and channels.
pub struct Config {
    pub ip_address: u32,
    pub port: u16,
    pub hart_devices: Vec<ConfigHartDevice>,
    pub device_name: Vec<u8>,
}

/// The keys the configuration asks for: one per channel of every
/// controller whose address is not the unconfigured placeholder.
pub open spec fn spec_config_keys(configs: Seq<Config>) -> Set<DeviceKey> {
    Set::new(
        |k: DeviceKey|
            exists|i: int, j: int|
                0 <= i < configs.len() && 0 <= j < configs[i].hart_devices@.len()
                    && configs[i].ip_address != LOCALHOST_SENTINEL && k == (DeviceKey {
                    ip: configs[i].ip_address,
                    slot: configs[i].hart_devices@[j].slot_number,
                    subslot: configs[i].hart_devices@[j].subslot_number,
                }),
    )
}

/// Whether `key` is among the keys the configuration asks for.
pub fn config_contains_key(configs: &Vec<Config>, key: DeviceKey) -> (r: bool)
    ensures
        r == spec_config_keys(configs@).contains(key),
{
    let mut i: usize = 0;
    while i < configs.len()
        invariant
            i <= configs@.len(),
            forall|a: int, b: int|
                0 <= a < i && 0 <= b < configs@[a].hart_devices@.len() && configs@[a].ip_address
                    != LOCALHOST_SENTINEL ==> key != (DeviceKey {
                    ip: configs@[a].ip_address,
                    slot: configs@[a].hart_devices@[b].slot_number,
                    subslot: configs@[a].hart_devices@[b].subslot_number,
                }),
        decreases configs@.len() - i,
    {
        let config = &configs[i];
        if config.ip_address != LOCALHOST_SENTINEL {
            let mut j: usize = 0;
            while j < config.hart_devices.len()
                invariant
                    j <= config.hart_devices@.len(),
                    config == configs@[i as int],
                    i < configs@.len(),
                    config.ip_address != LOCALHOST_SENTINEL,
                    forall|b: int|
                        0 <= b < j ==> key != (DeviceKey {
                            ip: config.ip_address,
                            slot: config.hart_devices@[b].slot_number,
                            subslot: config.hart_devices@[b].subslot_number,
                        }),
                decreases config.hart_devices@.len() - j,
            {
                let hd = &config.hart_devices[j];
                if key.ip == config.ip_address && key.slot == hd.slot_number && key.subslot
                    == hd.subslot_number {
                    assert(spec_config_keys(configs@).contains(key)) by {
                        assert(key == (DeviceKey {
                            ip: configs@[i as int].ip_address,
                            slot: configs@[i as int].hart_devices@[j as int].slot_number,
                            subslot: configs@[i as int].hart_devices@[j as int].subslot_number,
                        }));
                    }
                    return true;
                }
                j = j + 1;
            }
        }
        i = i + 1;
    }
    assert(!spec_config_keys(configs@).contains(key));
    false
}

} // verus!
