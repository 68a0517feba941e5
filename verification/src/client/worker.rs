//! The worker: reconciles the device store against the current
//! configuration and runs one polling round per cycle, forwarding every
//! successful command response to the sink.

use vstd::prelude::*;
use crate::client::lookup::LookupClient;
use crate::client::sender::Sender;
use crate::config::{
    clone_hart_commands, config_contains_key, spec_command_views, spec_config_keys, Config,
    DeviceKey, HartCommand, LOCALHOST_SENTINEL,
};
use crate::device::pnio_device::{PnioDevice, READ_RETRY_MAX};
use crate::error::LookupError;
use crate::protocol::hart_command::is_zero_device_id;
use crate::transport::transport_client::TransportClient;

verus! {

/// One stored device: its key, the connected session, and the commands
/// to issue each round.
pub struct StoreEntry<T: TransportClient> {
    pub key: DeviceKey,
    pub device: PnioDevice<T>,
    pub commands: Vec<HartCommand>,
}

/// The keys of a store, in order.
pub open spec fn spec_store_keys<T: TransportClient>(s: Seq<StoreEntry<T>>) -> Seq<DeviceKey> {
    s.map_values(|e: StoreEntry<T>| e.key)
}

/// No two entries share a key.
pub open spec fn spec_keys_unique(ks: Seq<DeviceKey>) -> bool {
    forall|a: int, b: int| 0 <= a < b < ks.len() ==> ks[a] != ks[b]
}

/// The channel at `(a, b)` of the configuration is real, not the
/// unconfigured placeholder, and is stored under `k`.
pub open spec fn spec_key_at(configs: Seq<Config>, a: int, b: int, k: DeviceKey) -> bool {
    &&& 0 <= a < configs.len()
    &&& 0 <= b < configs[a].hart_devices@.len()
    &&& configs[a].ip_address != LOCALHOST_SENTINEL
    &&& k == (DeviceKey {
        ip: configs[a].ip_address,
        slot: configs[a].hart_devices@[b].slot_number,
        subslot: configs[a].hart_devices@[b].subslot_number,
    })
}

/// `k` is named by a channel the reconciliation pass has already
/// visited: one of a configuration entry before `ci`, or an earlier
/// channel of entry `ci`.
pub open spec fn spec_key_in_prefix(configs: Seq<Config>, ci: int, hi: int, k: DeviceKey) -> bool {
    exists|a: int, b: int|
        #[trigger] spec_key_at(configs, a, b, k) && (a < ci || (a == ci && b < hi))
}

/// The entry's key, record numbers and command list agree with channel
/// `(a, b)` of the configuration.
pub open spec fn spec_matches_config_at<T: TransportClient>(
    configs: Seq<Config>,
    e: StoreEntry<T>,
    a: int,
    b: int,
) -> bool {
    &&& spec_key_at(configs, a, b, e.key)
    &&& e.device.request_data_record_number == configs[a].hart_devices@[b].request_data_record_number
    &&& e.device.response_data_record_number
        == configs[a].hart_devices@[b].response_data_record_number
    &&& spec_command_views(e.commands@) == spec_command_views(
        configs[a].hart_devices@[b].hart_commands@,
    )
}

/// The entry agrees with some channel of the configuration.
pub open spec fn spec_matches_config<T: TransportClient>(
    configs: Seq<Config>,
    e: StoreEntry<T>,
) -> bool {
    exists|a: int, b: int| #[trigger] spec_matches_config_at(configs, e, a, b)
}

/// Once every configuration entry has been visited, the visited keys are
/// exactly the configured keys.
proof fn lemma_prefix_covers_config(configs: Seq<Config>, k: DeviceKey)
    ensures
        spec_key_in_prefix(configs, configs.len() as int, 0, k) <==> spec_config_keys(
            configs,
        ).contains(k),
{
    if spec_key_in_prefix(configs, configs.len() as int, 0, k) {
        let (a, b) = choose|a: int, b: int|
            #[trigger] spec_key_at(configs, a, b, k) && (a < configs.len() as int || (a
                == configs.len() as int && b < 0));
        assert(spec_config_keys(configs).contains(k)) by {
            assert(0 <= a < configs.len() && 0 <= b < configs[a].hart_devices@.len()
                && configs[a].ip_address != LOCALHOST_SENTINEL && k == (DeviceKey {
                ip: configs[a].ip_address,
                slot: configs[a].hart_devices@[b].slot_number,
                subslot: configs[a].hart_devices@[b].subslot_number,
            }));
        }
    }
    if spec_config_keys(configs).contains(k) {
        let (a, b) = choose|a: int, b: int|
            0 <= a < configs.len() && 0 <= b < configs[a].hart_devices@.len()
                && configs[a].ip_address != LOCALHOST_SENTINEL && k == (DeviceKey {
                ip: configs[a].ip_address,
                slot: configs[a].hart_devices@[b].slot_number,
                subslot: configs[a].hart_devices@[b].subslot_number,
            });
        assert(spec_key_at(configs, a, b, k) && a < configs.len() as int);
    }
}

/// Holds the device store of the polling loop.
pub struct Worker<T: TransportClient> {
    pub store: Vec<StoreEntry<T>>,
}

/// Finds the entry stored under `key`.
fn find_entry<T: TransportClient>(store: &Vec<StoreEntry<T>>, key: DeviceKey) -> (r: Option<
    usize,
>)
    ensures
        r matches Some(i) ==> i < store@.len() && store@[i as int].key == key,
        r is None ==> forall|j: int| 0 <= j < store@.len() ==> store@[j].key != key,
{
    let n: usize = store.len();
    let mut i: usize = 0;
    while i < n
        invariant
            i <= n,
            n == store@.len(),
            forall|j: int| 0 <= j < i ==> store@[j].key != key,
        decreases n - i,
    {
        if store[i].key.ip == key.ip && store[i].key.slot == key.slot && store[i].key.subslot
            == key.subslot {
            assert(store@[i as int].key == key);
            return Some(i);
        }
        i = i + 1;
    }
    None
}

impl<T: TransportClient> Worker<T> {
    /// A store whose entries carry pairwise distinct keys.
    pub open spec fn wf(self) -> bool {
        spec_keys_unique(spec_store_keys(self.store@))
    }

    pub fn new() -> (r: Self)
        ensures
            r.store@.len() == 0,
            r.wf(),
    {
        Worker { store: Vec::new() }
    }

    /// Reconciles the store against the configuration: a configured key
    /// not yet stored is looked up and connected (and dropped for this
    /// cycle if either step fails); a stored configured key has its
    /// record numbers and command list brought up to date; a stored key
    /// no longer configured is removed. Afterwards every stored entry
    /// agrees with a configured channel, and every configured key that
    /// was stored is still stored.
    pub fn evaluate(&mut self, src_ip: u32, configs: &Vec<Config>)
        requires
            old(self).wf(),
        ensures
            final(self).wf(),
            forall|j: int|
                0 <= j < final(self).store@.len() ==> spec_config_keys(configs@).contains(
                    #[trigger] final(self).store@[j].key,
                ),
            forall|j: int|
                0 <= j < old(self).store@.len() && spec_config_keys(configs@).contains(
                    #[trigger] old(self).store@[j].key,
                ) ==> spec_store_keys(final(self).store@).contains(old(self).store@[j].key),
            forall|j: int|
                0 <= j < final(self).store@.len() ==> spec_matches_config(
                    configs@,
                    #[trigger] final(self).store@[j],
                ),
            forall|j: int, oj: int|
                #![trigger final(self).store@[j], old(self).store@[oj]]
                0 <= j < final(self).store@.len() && 0 <= oj < old(self).store@.len()
                    && final(self).store@[j].key == old(self).store@[oj].key
                    ==> PnioDevice::spec_same_session(
                    old(self).store@[oj].device,
                    final(self).store@[j].device,
                ),
    {
        let ghost old_n = self.store@.len();
        let ghost old_store = self.store@;
        let nc: usize = configs.len();
        let mut ci: usize = 0;
        proof {
            assert forall|k: DeviceKey| !spec_key_in_prefix(configs@, 0, 0, k) by {
                if spec_key_in_prefix(configs@, 0, 0, k) {
                    let (a, b) = choose|a: int, b: int|
                        #[trigger] spec_key_at(configs@, a, b, k) && (a < 0 || (a == 0 && b < 0));
                    assert(false);
                }
            }
            // Two store positions sharing a key are one and the same
            // entry, so each entry starts as its own session.
            assert forall|j: int, oj: int|
                #![trigger old_store[j], old_store[oj]]
                0 <= j < old_store.len() && 0 <= oj < old_store.len() && old_store[j].key
                    == old_store[oj].key implies j == oj by {
                if j != oj {
                    assert(spec_store_keys(old_store)[j] == old_store[j].key);
                    assert(spec_store_keys(old_store)[oj] == old_store[oj].key);
                }
            }
        }
        while ci < nc
            invariant
                nc == configs@.len(),
                ci <= nc,
                self.wf(),
                old_n <= self.store@.len(),
                forall|j: int| 0 <= j < old_n ==> self.store@[j].key == old_store[j].key,
                forall|j: int|
                    old_n <= j < self.store@.len() ==> spec_config_keys(configs@).contains(
                        #[trigger] self.store@[j].key,
                    ),
                forall|j: int|
                    #![trigger self.store@[j]]
                    0 <= j < self.store@.len() && spec_key_in_prefix(
                        configs@,
                        ci as int,
                        0,
                        self.store@[j].key,
                    ) ==> spec_matches_config(configs@, self.store@[j]),
                forall|j: int, oj: int|
                    #![trigger self.store@[j], old_store[oj]]
                    0 <= j < self.store@.len() && 0 <= oj < old_n && self.store@[j].key
                        == old_store[oj].key ==> PnioDevice::spec_same_session(
                        old_store[oj].device,
                        self.store@[j].device,
                    ),
            decreases nc - ci,
        {
            let config = &configs[ci];
            let nh: usize = config.hart_devices.len();
            let mut hi: usize = 0;
            while hi < nh
                invariant
                    nc == configs@.len(),
                    ci < nc,
                    config == configs@[ci as int],
                    nh == config.hart_devices@.len(),
                    hi <= nh,
                    self.wf(),
                    old_n <= self.store@.len(),
                    forall|j: int| 0 <= j < old_n ==> self.store@[j].key == old_store[j].key,
                    forall|j: int|
                        old_n <= j < self.store@.len() ==> spec_config_keys(configs@).contains(
                            #[trigger] self.store@[j].key,
                        ),
                    forall|j: int|
                        #![trigger self.store@[j]]
                        0 <= j < self.store@.len() && spec_key_in_prefix(
                            configs@,
                            ci as int,
                            hi as int,
                            self.store@[j].key,
                        ) ==> spec_matches_config(configs@, self.store@[j]),
                    forall|j: int, oj: int|
                        #![trigger self.store@[j], old_store[oj]]
                        0 <= j < self.store@.len() && 0 <= oj < old_n && self.store@[j].key
                            == old_store[oj].key ==> PnioDevice::spec_same_session(
                            old_store[oj].device,
                            self.store@[j].device,
                        ),
                decreases nh - hi,
            {
                let hd = &config.hart_devices[hi];
                let key = DeviceKey {
                    ip: config.ip_address,
                    slot: hd.slot_number,
                    subslot: hd.subslot_number,
                };
                // The placeholder address marks an unconfigured default
                // entry, which is never looked up.
                if config.ip_address != LOCALHOST_SENTINEL {
                    proof {
                        assert(spec_key_at(configs@, ci as int, hi as int, key));
                        assert(spec_config_keys(configs@).contains(key)) by {
                            assert(0 <= ci < configs@.len() && 0 <= hi
                                < configs@[ci as int].hart_devices@.len() && configs@[
                                ci as int
                            ].ip_address != LOCALHOST_SENTINEL && key == (DeviceKey {
                                ip: configs@[ci as int].ip_address,
                                slot: configs@[ci as int].hart_devices@[hi as int].slot_number,
                                subslot: configs@[ci as int].hart_devices@[
                                    hi as int
                                ].subslot_number,
                            }));
                        }
                    }
                    match find_entry(&self.store, key) {
                        None => {
                            let mut lookup_client = LookupClient::new();
                            let looked_up: Result<PnioDevice<T>, LookupError> =
                                lookup_client.lookup(
                                src_ip,
                                &config.device_name,
                                config.ip_address,
                                config.port,
                                hd.slot_number,
                                hd.subslot_number,
                                hd.request_data_record_number,
                                hd.response_data_record_number,
                                &hd.hart_device_name,
                            );
                            let ghost before = self.store@;
                            let mut inserted = false;
                            match looked_up {
                                Ok(mut device) => {
                                    match device.connect_req() {
                                        Ok(_) => {
                                            let commands = clone_hart_commands(&hd.hart_commands);
                                            self.store.push(StoreEntry { key, device, commands });
                                            inserted = true;
                                        },
                                        Err(_) => {
                                            // A device that cannot connect is not
                                            // stored; the next cycle retries.
                                        },
                                    }
                                },
                                Err(_) => {
                                    // Lookup failed; the next cycle retries.
                                },
                            }
                            proof {
                                let cur = self.store@;
                                if inserted {
                                    assert(spec_store_keys(cur) =~= spec_store_keys(before).push(
                                        key,
                                    ));
                                    assert(spec_matches_config_at(
                                        configs@,
                                        cur[cur.len() - 1],
                                        ci as int,
                                        hi as int,
                                    ));
                                } else {
                                    assert(cur == before);
                                }
                                // A fresh entry cannot pair with a stored
                                // one: no entry carried this key.
                                assert forall|j: int, oj: int|
                                    #![trigger cur[j], old_store[oj]]
                                    0 <= j < cur.len() && 0 <= oj < old_n && cur[j].key
                                        == old_store[oj].key implies
                                    PnioDevice::spec_same_session(
                                        old_store[oj].device,
                                        cur[j].device,
                                    ) by {
                                    if inserted && j == cur.len() - 1 {
                                        assert(before[oj].key == old_store[oj].key);
                                        assert(false);
                                    } else {
                                        assert(cur[j] == before[j]);
                                    }
                                }
                                assert forall|j: int|
                                    #![trigger cur[j]]
                                    0 <= j < cur.len() && spec_key_in_prefix(
                                        configs@,
                                        ci as int,
                                        hi + 1,
                                        cur[j].key,
                                    ) implies spec_matches_config(configs@, cur[j]) by {
                                    if inserted && j == cur.len() - 1 {
                                        assert(spec_matches_config_at(
                                            configs@,
                                            cur[j],
                                            ci as int,
                                            hi as int,
                                        ));
                                    } else {
                                        assert(cur[j] == before[j]);
                                        let k2 = cur[j].key;
                                        let (a, b) = choose|a: int, b: int|
                                            #[trigger] spec_key_at(configs@, a, b, k2) && (a
                                                < ci as int || (a == ci as int && b < hi + 1));
                                        if a == ci && b == hi {
                                            // No stored entry carried this key.
                                            assert(k2 == key);
                                            assert(false);
                                        } else {
                                            assert(spec_key_at(configs@, a, b, k2) && (a
                                                < ci as int || (a == ci as int && b < hi as int)));
                                            assert(spec_key_in_prefix(
                                                configs@,
                                                ci as int,
                                                hi as int,
                                                k2,
                                            ));
                                        }
                                    }
                                }
                            }
                        },
                        Some(idx) => {
                            // Already stored: bring the record numbers and
                            // the command list up to date in place.
                            let commands = clone_hart_commands(&hd.hart_commands);
                            let ghost before = self.store@;
                            let entry = &mut self.store[idx];
                            entry.device.request_data_record_number =
                                hd.request_data_record_number;
                            entry.device.response_data_record_number =
                                hd.response_data_record_number;
                            entry.commands = commands;
                            proof {
                                let cur = self.store@;
                                assert(spec_store_keys(cur) =~= spec_store_keys(before));
                                assert(cur[idx as int].key == key);
                                assert(spec_matches_config_at(
                                    configs@,
                                    cur[idx as int],
                                    ci as int,
                                    hi as int,
                                ));
                                // Only the record numbers and commands were
                                // touched; the session itself is kept.
                                assert(PnioDevice::spec_same_session(
                                    before[idx as int].device,
                                    cur[idx as int].device,
                                ));
                                assert forall|j: int, oj: int|
                                    #![trigger cur[j], old_store[oj]]
                                    0 <= j < cur.len() && 0 <= oj < old_n && cur[j].key
                                        == old_store[oj].key implies
                                    PnioDevice::spec_same_session(
                                        old_store[oj].device,
                                        cur[j].device,
                                    ) by {
                                    if j != idx {
                                        assert(cur[j] == before[j]);
                                    } else {
                                        assert(before[idx as int].key == old_store[oj].key);
                                    }
                                }
                                assert forall|j: int|
                                    #![trigger cur[j]]
                                    0 <= j < cur.len() && spec_key_in_prefix(
                                        configs@,
                                        ci as int,
                                        hi + 1,
                                        cur[j].key,
                                    ) implies spec_matches_config(configs@, cur[j]) by {
                                    if j != idx {
                                        assert(cur[j] == before[j]);
                                        let k2 = cur[j].key;
                                        let (a, b) = choose|a: int, b: int|
                                            #[trigger] spec_key_at(configs@, a, b, k2) && (a
                                                < ci as int || (a == ci as int && b < hi + 1));
                                        if a == ci && b == hi {
                                            // Two distinct entries would share the
                                            // key, against uniqueness.
                                            assert(k2 == key);
                                            assert(spec_store_keys(before)[j] == before[j].key);
                                            assert(spec_store_keys(before)[idx as int] == before[
                                                idx as int
                                            ].key);
                                            assert(false);
                                        } else {
                                            assert(spec_key_at(configs@, a, b, k2) && (a
                                                < ci as int || (a == ci as int && b < hi as int)));
                                            assert(spec_key_in_prefix(
                                                configs@,
                                                ci as int,
                                                hi as int,
                                                k2,
                                            ));
                                        }
                                    }
                                }
                            }
                        },
                    }
                } else {
                    proof {
                        // The placeholder key is never counted as
                        // configured, so the visited prefix grows by
                        // nothing.
                        let cur = self.store@;
                        assert forall|j: int|
                            #![trigger cur[j]]
                            0 <= j < cur.len() && spec_key_in_prefix(
                                configs@,
                                ci as int,
                                hi + 1,
                                cur[j].key,
                            ) implies spec_matches_config(configs@, cur[j]) by {
                            let k2 = cur[j].key;
                            let (a, b) = choose|a: int, b: int|
                                #[trigger] spec_key_at(configs@, a, b, k2) && (a < ci as int || (a
                                    == ci as int && b < hi + 1));
                            if a == ci && b == hi {
                                assert(configs@[a].ip_address != LOCALHOST_SENTINEL);
                                assert(false);
                            } else {
                                assert(spec_key_at(configs@, a, b, k2) && (a < ci as int || (a
                                    == ci as int && b < hi as int)));
                                assert(spec_key_in_prefix(configs@, ci as int, hi as int, k2));
                            }
                        }
                    }
                }
                hi = hi + 1;
            }
            proof {
                // Entry `ci` is exhausted: its full channel list is now
                // part of the visited prefix.
                let cur = self.store@;
                assert forall|j: int|
                    #![trigger cur[j]]
                    0 <= j < cur.len() && spec_key_in_prefix(
                        configs@,
                        ci + 1,
                        0,
                        cur[j].key,
                    ) implies spec_matches_config(configs@, cur[j]) by {
                    let k2 = cur[j].key;
                    let (a, b) = choose|a: int, b: int|
                        #[trigger] spec_key_at(configs@, a, b, k2) && (a < ci + 1 || (a == ci + 1
                            && b < 0));
                    assert(spec_key_at(configs@, a, b, k2) && (a < ci as int || (a == ci as int
                        && b < nh as int)));
                    assert(spec_key_in_prefix(configs@, ci as int, nh as int, k2));
                }
            }
            ci = ci + 1;
        }
        // Remove entries whose key the configuration no longer names.
        let mut i: usize = 0;
        let ghost kept = self.store@;
        proof {
            assert forall|j: int| 0 <= j < kept.len() implies spec_store_keys(kept).contains(
                #[trigger] kept[j].key,
            ) by {
                assert(spec_store_keys(kept)[j] == kept[j].key);
            }
            // Every entry whose key is configured was visited and
            // therefore agrees with a configured channel.
            assert forall|j: int|
                #![trigger kept[j]]
                0 <= j < kept.len() && spec_config_keys(configs@).contains(
                    kept[j].key,
                ) implies spec_matches_config(configs@, kept[j]) by {
                lemma_prefix_covers_config(configs@, kept[j].key);
            }
        }
        while i < self.store.len()
            invariant
                i <= self.store@.len(),
                self.wf(),
                forall|j: int|
                    0 <= j < i ==> spec_config_keys(configs@).contains(
                        #[trigger] self.store@[j].key,
                    ),
                forall|j: int|
                    0 <= j < kept.len() && spec_config_keys(configs@).contains(
                        #[trigger] kept[j].key,
                    ) ==> spec_store_keys(self.store@).contains(kept[j].key),
                forall|j: int|
                    0 <= j < self.store@.len() ==> spec_store_keys(kept).contains(
                        #[trigger] self.store@[j].key,
                    ),
                forall|j: int|
                    #![trigger self.store@[j]]
                    0 <= j < self.store@.len() && spec_config_keys(configs@).contains(
                        self.store@[j].key,
                    ) ==> spec_matches_config(configs@, self.store@[j]),
                forall|j: int, oj: int|
                    #![trigger self.store@[j], old_store[oj]]
                    0 <= j < self.store@.len() && 0 <= oj < old_n && self.store@[j].key
                        == old_store[oj].key ==> PnioDevice::spec_same_session(
                        old_store[oj].device,
                        self.store@[j].device,
                    ),
            decreases self.store@.len() - i,
        {
            if config_contains_key(configs, self.store[i].key) {
                i = i + 1;
            } else {
                let ghost before = self.store@;
                let removed = self.store.swap_remove(i);
                proof {
                    let cur = self.store@;
                    let last = before.len() - 1;
                    assert(cur =~= before.update(i as int, before[last]).drop_last());
                    assert forall|j: int| 0 <= j < cur.len() implies cur[j] == (if j == i {
                        before[last]
                    } else {
                        before[j]
                    }) by {}
                    assert forall|a: int, b: int|
                        0 <= a < b < spec_store_keys(cur).len() implies spec_store_keys(cur)[a]
                        != spec_store_keys(cur)[b] by {
                        let la: int = if a == i {
                            last
                        } else {
                            a
                        };
                        let lb: int = if b == i {
                            last
                        } else {
                            b
                        };
                        assert(spec_store_keys(cur)[a] == cur[a].key && cur[a] == before[la]);
                        assert(spec_store_keys(cur)[b] == cur[b].key && cur[b] == before[lb]);
                        assert(spec_store_keys(before)[la] == before[la].key);
                        assert(spec_store_keys(before)[lb] == before[lb].key);
                    }
                    assert forall|j: int|
                        0 <= j < kept.len() && spec_config_keys(configs@).contains(
                            #[trigger] kept[j].key,
                        ) implies spec_store_keys(cur).contains(kept[j].key) by {
                        let k = kept[j].key;
                        assert(spec_store_keys(before).contains(k));
                        let idx = choose|idx: int|
                            0 <= idx < spec_store_keys(before).len() && spec_store_keys(
                                before,
                            )[idx] == k;
                        assert(before[idx].key == k);
                        assert(idx != i) by {
                            assert(before[i as int].key == removed.key);
                        }
                        if idx == last {
                            assert(cur[i as int] == before[idx]);
                            assert(spec_store_keys(cur)[i as int] == k);
                        } else {
                            assert(cur[idx] == before[idx]);
                            assert(spec_store_keys(cur)[idx] == k);
                        }
                    }
                    assert forall|j: int|
                        0 <= j < cur.len() implies spec_store_keys(kept).contains(
                        #[trigger] cur[j].key,
                    ) by {
                        let lj: int = if j == i {
                            last
                        } else {
                            j
                        };
                        assert(cur[j] == before[lj]);
                        assert(spec_store_keys(kept).contains(before[lj].key));
                    }
                    assert forall|j: int|
                        #![trigger cur[j]]
                        0 <= j < cur.len() && spec_config_keys(configs@).contains(
                            cur[j].key,
                        ) implies spec_matches_config(configs@, cur[j]) by {
                        let lj: int = if j == i {
                            last
                        } else {
                            j
                        };
                        assert(cur[j] == before[lj]);
                    }
                    assert forall|j: int, oj: int|
                        #![trigger cur[j], old_store[oj]]
                        0 <= j < cur.len() && 0 <= oj < old_n && cur[j].key == old_store[oj].key
                        implies PnioDevice::spec_same_session(
                        old_store[oj].device,
                        cur[j].device,
                    ) by {
                        let lj: int = if j == i {
                            last
                        } else {
                            j
                        };
                        assert(cur[j] == before[lj]);
                    }
                }
            }
        }
        proof {
            assert forall|j: int|
                0 <= j < old_store.len() && spec_config_keys(configs@).contains(
                    old_store[j].key,
                ) implies spec_store_keys(final(self).store@).contains(old_store[j].key) by {
                assert(kept[j].key == old_store[j].key);
            }
        }
    }

    /// One polling round: for each stored device, bootstrap its HART
    /// long address with command 0 if it is still unknown, otherwise
    /// issue every configured command as a write-then-read pair and hand
    /// each successful read to the sink. Failures are local to one
    /// device and command; the store's keys do not change.
    pub fn read<S: Sender>(&mut self, sender: &mut S)
        requires
            old(self).wf(),
        ensures
            final(self).wf(),
            final(self).store@.len() == old(self).store@.len(),
            forall|j: int|
                0 <= j < final(self).store@.len() ==> final(self).store@[j].key == old(
                    self,
                ).store@[j].key,
    {
        let n: usize = self.store.len();
        let mut i: usize = 0;
        while i < n
            invariant
                n == self.store@.len(),
                i <= n,
                self.wf(),
                self.store@.len() == old(self).store@.len(),
                forall|j: int|
                    0 <= j < self.store@.len() ==> self.store@[j].key == old(self).store@[j].key,
            decreases n - i,
        {
            let ghost before = self.store@;
            let entry = &mut self.store[i];
            let req_record = entry.device.request_data_record_number;
            let res_record = entry.device.response_data_record_number;
            // A session needs headroom for one round of polling; a
            // counter this close to wrapping means the relation should
            // be re-established, so the device is skipped this cycle.
            let headroom = entry.device.dcerpc_seq_num <= u32::MAX - READ_RETRY_MAX as u32
                && entry.device.pnio_seq_num <= u16::MAX - READ_RETRY_MAX as u16;
            if headroom {
                if is_zero_device_id(&entry.device.device_id) {
                    // The long address is unknown: issue command 0 and
                    // let the read bootstrap the address. No message is
                    // emitted this cycle.
                    match entry.device.send_common_write_req(req_record, 0, None) {
                        Ok(_) => {
                            let outcome = entry.device.send_common_read_req(res_record, 0);
                            match outcome {
                                Ok(_) => (),
                                Err(_) => {
                                    // The device stays stored; the next
                                    // cycle retries the bootstrap.
                                },
                            }
                        },
                        Err(_) => {},
                    }
                } else {
                    let ghost key0 = entry.key;
                    let ncmd: usize = entry.commands.len();
                    let mut c: usize = 0;
                    while c < ncmd
                        invariant
                            ncmd == entry.commands@.len(),
                            c <= ncmd,
                            entry.key == key0,
                        decreases ncmd - c,
                    {
                        let number = entry.commands[c].number;
                        let payload_ok = match &entry.commands[c].data {
                            Some(d) => d.len() <= 65000,
                            None => true,
                        };
                        let cmd_headroom = entry.device.dcerpc_seq_num <= u32::MAX
                            - READ_RETRY_MAX as u32 && entry.device.pnio_seq_num <= u16::MAX
                            - READ_RETRY_MAX as u16;
                        if payload_ok && cmd_headroom {
                            let payload = entry.commands[c].data.as_ref();
                            match entry.device.send_common_write_req(req_record, number, payload) {
                                Ok(_) => {
                                    match entry.device.send_common_read_req(res_record, number) {
                                        Ok((data_length, bytes)) => {
                                            // Hand the response to the sink; a
                                            // sink failure only skips this
                                            // message.
                                            let _ = sender.send(
                                                entry.key,
                                                &entry.device.hart_device_name,
                                                number,
                                                data_length,
                                                &bytes,
                                            );
                                        },
                                        Err(_) => {},
                                    }
                                },
                                Err(_) => {},
                            }
                        }
                        c = c + 1;
                    }
                }
            }
            proof {
                assert(self.store@[i as int].key == before[i as int].key);
                assert forall|j: int|
                    0 <= j < self.store@.len() implies self.store@[j].key == before[j].key by {
                    if j != i {
                        assert(self.store@[j] == before[j]);
                    }
                }
                assert forall|a: int, b: int|
                    0 <= a < b < spec_store_keys(self.store@).len() implies spec_store_keys(
                    self.store@,
                )[a] != spec_store_keys(self.store@)[b] by {
                    assert(spec_store_keys(self.store@)[a] == self.store@[a].key);
                    assert(spec_store_keys(self.store@)[b] == self.store@[b].key);
                    assert(spec_store_keys(before)[a] == before[a].key);
                    assert(spec_store_keys(before)[b] == before[b].key);
                }
            }
            i = i + 1;
        }
    }
}

} // verus!
