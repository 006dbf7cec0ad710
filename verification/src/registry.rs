//! The registry of device channels: one channel per device identifier,
//! created on first reference and kept for the life of the process.

use dashmap::DashMap;
use vstd::prelude::*;
use vstd::string::StringExecFns;

use crate::error::AppError;
use crate::error::ErrorKind;

verus! {

/// `dashmap::DashMap`, opaque to the verifier.
#[verifier::external_type_specification]
#[verifier::external_body]
#[verifier::reject_recursive_types(K)]
#[verifier::reject_recursive_types(V)]
#[verifier::reject_recursive_types(S)]
pub struct ExDashMap<K, V, S>(DashMap<K, V, S>);

/// The entries of a table of channels: device identifier to channel number.
pub uninterp spec fn table_entries(table: DashMap<String, u64>) -> Map<Seq<char>, u64>;

/// The table without entries.
pub open spec fn no_entries() -> Map<Seq<char>, u64> {
    Map::empty()
}

/// `DashMap::new`: a table without entries.
#[verifier::external_body]
fn table_new() -> (made: DashMap<String, u64>)
    ensures
        table_entries(made) == no_entries(),
{
    DashMap::new()
}

/// `DashMap::get`: the value stored under `key`, copied out, or `None` where
/// the table has no such key.
#[verifier::external_body]
fn table_get(table: &DashMap<String, u64>, key: &str) -> (found: Option<u64>)
    ensures
        found == (if table_entries(*table).dom().contains(key@) {
            Some(table_entries(*table)[key@])
        } else {
            None
        }),
{
    table.get(key).map(|entry| *entry.value())
}

/// `DashMap::insert`: stores `value` under `key`, replacing what was there, and
/// returns what was there.
#[verifier::external_body]
fn table_insert(table: &mut DashMap<String, u64>, key: String, value: u64) -> (previous: Option<u64>)
    ensures
        table_entries(*final(table)) == table_entries(*old(table)).insert(key@, value),
        previous == (if table_entries(*old(table)).dom().contains(key@) {
            Some(table_entries(*old(table))[key@])
        } else {
            None
        }),
{
    table.insert(key, value)
}

/// The mathematical content of a registry.
pub ghost struct RegistryView {
    /// The channel of each registered device.
    pub channels: Map<Seq<char>, u64>,
    /// How many channels were created so far.
    pub issued: nat,
}

impl RegistryView {
    /// Every channel number was issued, and no two devices share a channel.
    pub open spec fn wf(self) -> bool {
        &&& forall|d: Seq<char>| #[trigger]
            self.channels.dom().contains(d) ==> (self.channels[d] as nat) < self.issued
        &&& forall|a: Seq<char>, b: Seq<char>|
            #![trigger self.channels[a], self.channels[b]]
            self.channels.dom().contains(a) && self.channels.dom().contains(b)
                && self.channels[a] == self.channels[b] ==> a == b
    }

    /// The channel that a reference to `device` yields: the registered one, or
    /// else the next unused number.
    pub open spec fn channel_for(self, device: Seq<char>) -> nat {
        if self.channels.dom().contains(device) {
            self.channels[device] as nat
        } else {
            self.issued
        }
    }

    /// The registry after a reference to `device`: unchanged where the device
    /// is registered, else with one new channel for it.
    pub open spec fn referenced(self, device: Seq<char>) -> RegistryView
        recommends
            self.issued <= u64::MAX,
    {
        if self.channels.dom().contains(device) {
            self
        } else {
            RegistryView {
                channels: self.channels.insert(device, self.issued as u64),
                issued: self.issued + 1,
            }
        }
    }
}

/// The registry after `n` references to `device`, one after the other.
pub open spec fn referenced_times(r: RegistryView, device: Seq<char>, n: nat) -> RegistryView
    decreases n,
{
    if n == 0 {
        r
    } else {
        referenced_times(r, device, (n - 1) as nat).referenced(device)
    }
}

/// Device identifier to channel, with the count of channels created.
pub struct Registry {
    table: DashMap<String, u64>,
    issued: u64,
}

impl View for Registry {
    type V = RegistryView;

    closed spec fn view(&self) -> RegistryView {
        RegistryView { channels: table_entries(self.table), issued: self.issued as nat }
    }
}

impl Registry {
    /// The invariant of a registry: see [`RegistryView::wf`].
    pub open spec fn wf(&self) -> bool {
        self@.wf() && self@.issued <= u64::MAX
    }

    /// A registry without channels.
    pub fn new() -> (r: Registry)
        ensures
            r.wf(),
            r@.channels == Map::<Seq<char>, u64>::empty(),
            r@.issued == 0,
    {
        Registry { table: table_new(), issued: 0 }
    }

    /// How many channels were created so far.
    pub fn issued(&self) -> (n: u64)
        ensures
            n == self@.issued,
    {
        self.issued
    }

    /// The channel of `device_id`, or `DeviceChannelNotFound` where none is
    /// registered.
    pub fn get(&self, device_id: &str) -> (r: Result<u64, AppError>)
        ensures
            r is Ok <==> self@.channels.dom().contains(device_id@),
            r matches Ok(c) ==> c == self@.channels[device_id@],
            r matches Err(e) ==> e.kind == ErrorKind::DeviceChannelNotFound
                && e.detail@ == crate::error::kind_text(ErrorKind::DeviceChannelNotFound),
    {
        match table_get(&self.table, device_id) {
            Some(c) => Ok(c),
            None => Err(AppError::of_kind(ErrorKind::DeviceChannelNotFound)),
        }
    }

    /// The channel of `device_id`, created now if the device had none. A
    /// registered device keeps its channel and the registry stays as it was.
    pub fn get_or_create(&mut self, device_id: &str) -> (c: u64)
        requires
            old(self).wf(),
            old(self)@.channels.dom().contains(device_id@) || old(self)@.issued < u64::MAX,
        ensures
            final(self).wf(),
            final(self)@ == old(self)@.referenced(device_id@),
            c == old(self)@.channel_for(device_id@),
            final(self)@.channels.dom().contains(device_id@),
            final(self)@.channels[device_id@] == c,
    {
        match table_get(&self.table, device_id) {
            Some(c) => c,
            None => {
                let c: u64 = self.issued;
                let _ = table_insert(&mut self.table, String::from_str(device_id), c);
                self.issued = c + 1;
                proof {
                    law_get_or_create_idempotent(old(self)@, device_id@);
                    assert(self@ == old(self)@.referenced(device_id@));
                }
                c
            },
        }
    }
}

/// Any number of references to one device yield one channel: a second
/// reference returns the channel of the first and changes nothing.
pub proof fn law_get_or_create_idempotent(r: RegistryView, device: Seq<char>)
    requires
        r.wf(),
        r.issued < u64::MAX,
    ensures
        r.referenced(device).wf(),
        r.referenced(device).channel_for(device) == r.channel_for(device),
        r.referenced(device).referenced(device) == r.referenced(device),
{
}

/// However many references are made to one device, they create one channel
/// at most and all yield that channel: the registry after the first stays as
/// it is.
pub proof fn law_references_share_one_channel(r: RegistryView, device: Seq<char>, n: nat)
    requires
        r.wf(),
        r.issued < u64::MAX,
        n >= 1,
    ensures
        referenced_times(r, device, n) == r.referenced(device),
        referenced_times(r, device, n).wf(),
        referenced_times(r, device, n).issued <= r.issued + 1,
        forall|k: nat| k <= n ==> #[trigger] referenced_times(r, device, k).channel_for(device) == r.channel_for(device),
    decreases n,
{
    law_get_or_create_idempotent(r, device);
    assert(referenced_times(r, device, 0) == r);
    assert(referenced_times(r, device, n) == referenced_times(r, device, (n - 1) as nat).referenced(device));
    if n > 1 {
        law_references_share_one_channel(r, device, (n - 1) as nat);
    }
    assert forall|k: nat| k <= n implies #[trigger] referenced_times(r, device, k).channel_for(device)
        == r.channel_for(device) by {
        if k == n {
            assert(referenced_times(r, device, k) == r.referenced(device));
        }
    }
}

/// Two distinct devices never share a channel, before and after either of
/// them is referenced.
pub proof fn law_distinct_devices_distinct_channels(r: RegistryView, a: Seq<char>, b: Seq<char>)
    requires
        r.wf(),
        r.issued + 1 < u64::MAX,
        a != b,
    ensures
        r.referenced(a).referenced(b).channel_for(a) != r.referenced(a).referenced(b).channel_for(b),
        r.referenced(a).referenced(b).channel_for(a) == r.channel_for(a),
{
}

/// A reference to one device leaves the channel of every registered device
/// as it was.
pub proof fn law_reference_keeps_other_channels(r: RegistryView, a: Seq<char>, b: Seq<char>)
    requires
        r.wf(),
        r.issued < u64::MAX,
        r.channels.dom().contains(b),
    ensures
        r.referenced(a).channels.dom().contains(b),
        r.referenced(a).channels[b] == r.channels[b],
{
}

} // verus!
