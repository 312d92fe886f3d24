//! Device enumeration model and the selection rule: among the enumerated
//! compute devices, pick the one with the strictly greatest compute-unit
//! count, keeping the first of a tied maximum.
//!
//! Enumeration itself and the capability queries are platform calls made
//! outside this crate; their results come in as [`Capability`] values and
//! device lists, and every decision on them is made (and proved) here.

use vstd::prelude::*;

verus! {

/// The sentinel that a failed capability query degrades to.
pub const QUERY_FAILURE_SENTINEL: i64 = -1;

/// Outcome of one capability query (compute units, memory sizes): either the
/// queried value or an explicit failure marker.
pub enum Capability {
    Value(i64),
    QueryFailed,
}

/// The figure a capability query reports: the queried value, or the sentinel
/// when the query failed.
pub open spec fn sentinel_of(c: Capability) -> i64 {
    match c {
        Capability::Value(v) => v,
        Capability::QueryFailed => QUERY_FAILURE_SENTINEL,
    }
}

/// Degrades a failed capability query to the sentinel value instead of
/// aborting; a successful query reports its value unchanged.
pub fn capability_or_sentinel(c: &Capability) -> (r: i64)
    ensures
        r == sentinel_of(*c),
{
    match c {
        Capability::Value(v) => *v,
        Capability::QueryFailed => QUERY_FAILURE_SENTINEL,
    }
}

/// One enumerated compute device: its human-readable name and its capability
/// figures, each already degraded to the sentinel if its query failed.
pub struct DeviceProfile {
    pub name: String,
    pub compute_units: i64,
    pub local_mem_size: i64,
    pub global_mem_size: i64,
}

impl Clone for DeviceProfile {
    fn clone(&self) -> (res: Self)
        ensures
            res == *self,
    {
        DeviceProfile {
            name: self.name.clone(),
            compute_units: self.compute_units,
            local_mem_size: self.local_mem_size,
            global_mem_size: self.global_mem_size,
        }
    }
}

impl DeviceProfile {
    /// Builds the profile of one device from the outcomes of its three
    /// capability queries. A failed query degrades to the sentinel and never
    /// disqualifies the device.
    pub fn from_queries(
        name: String,
        compute_units: Capability,
        local_mem_size: Capability,
        global_mem_size: Capability,
    ) -> (d: DeviceProfile)
        ensures
            d.name == name,
            d.compute_units == sentinel_of(compute_units),
            d.local_mem_size == sentinel_of(local_mem_size),
            d.global_mem_size == sentinel_of(global_mem_size),
    {
        DeviceProfile {
            name,
            compute_units: capability_or_sentinel(&compute_units),
            local_mem_size: capability_or_sentinel(&local_mem_size),
            global_mem_size: capability_or_sentinel(&global_mem_size),
        }
    }
}

/// The capability figures a device exposes.
pub trait OclDevice {
    /// The compute-unit count this device reports.
    spec fn spec_compute_units(&self) -> i64;

    /// The local memory size (bytes) this device reports.
    spec fn spec_local_mem_size(&self) -> i64;

    /// The global memory size (bytes) this device reports.
    spec fn spec_global_mem_size(&self) -> i64;

    fn get_compute_units(&self) -> (r: i64)
        ensures
            r == self.spec_compute_units(),
    ;

    fn get_local_mem_size(&self) -> (r: i64)
        ensures
            r == self.spec_local_mem_size(),
    ;

    fn get_global_mem_size(&self) -> (r: i64)
        ensures
            r == self.spec_global_mem_size(),
    ;
}

impl OclDevice for DeviceProfile {
    open spec fn spec_compute_units(&self) -> i64 {
        self.compute_units
    }

    open spec fn spec_local_mem_size(&self) -> i64 {
        self.local_mem_size
    }

    open spec fn spec_global_mem_size(&self) -> i64 {
        self.global_mem_size
    }

    fn get_compute_units(&self) -> i64 {
        self.compute_units
    }

    fn get_local_mem_size(&self) -> i64 {
        self.local_mem_size
    }

    fn get_global_mem_size(&self) -> i64 {
        self.global_mem_size
    }
}

/// Index `i` names the device the selection rule picks from list `s`: no
/// device has a greater compute-unit count, and every earlier device has a
/// strictly smaller one (the first of a tied maximum wins).
pub open spec fn is_selected(s: Seq<DeviceProfile>, i: int) -> bool {
    &&& 0 <= i < s.len()
    &&& forall|j: int| 0 <= j < s.len() ==> s[j].compute_units <= s[i].compute_units
    &&& forall|j: int| 0 <= j < i ==> s[j].compute_units < s[i].compute_units
}

/// At most one index of a device list satisfies the selection rule.
pub proof fn lemma_selected_unique(s: Seq<DeviceProfile>, i: int, j: int)
    requires
        is_selected(s, i),
        is_selected(s, j),
    ensures
        i == j,
{
    if i < j {
        assert(s[i].compute_units < s[j].compute_units);
        assert(s[j].compute_units <= s[i].compute_units);
    }
    if j < i {
        assert(s[j].compute_units < s[i].compute_units);
        assert(s[i].compute_units <= s[j].compute_units);
    }
}

/// Selection reads only the compute-unit counts: two lists that agree on them
/// select the same index, whatever their memory figures (a device whose memory
/// query failed stays fully eligible).
pub proof fn lemma_selection_ignores_memory(s: Seq<DeviceProfile>, t: Seq<DeviceProfile>, i: int)
    requires
        s.len() == t.len(),
        forall|j: int| 0 <= j < s.len() ==> s[j].compute_units == t[j].compute_units,
        is_selected(s, i),
    ensures
        is_selected(t, i),
{
}

/// Scans a device list and returns the index of the device with the greatest
/// compute-unit count, keeping the first of a tied maximum; `None` exactly
/// when the list is empty.
pub fn select_most_capable(devices: &Vec<DeviceProfile>) -> (r: Option<usize>)
    ensures
        match r {
            Option::Some(i) => is_selected(devices@, i as int),
            Option::None => devices@.len() == 0,
        },
        devices@.len() > 0 ==> r is Some,
{
    if devices.len() == 0 {
        return Option::None;
    }
    let mut best: usize = 0;
    let mut i: usize = 1;
    while i < devices.len()
        invariant
            1 <= i <= devices@.len(),
            best < i,
            forall|j: int| 0 <= j < i ==> devices@[j].compute_units
                <= devices@[best as int].compute_units,
            forall|j: int| 0 <= j < best ==> devices@[j].compute_units
                < devices@[best as int].compute_units,
        decreases devices@.len() - i,
    {
        if devices[i].compute_units > devices[best].compute_units {
            best = i;
        }
        i = i + 1;
    }
    Option::Some(best)
}

/// Returns the most capable device of an enumeration: `None` when enumeration
/// failed or listed no device (callers must treat that as fatal), otherwise
/// the first device with the maximum compute-unit count.
pub fn find_most_capable_device(enumeration: Option<Vec<DeviceProfile>>) -> (r: Option<
    DeviceProfile,
>)
    ensures
        match enumeration {
            Option::None => r is None,
            Option::Some(list) => {
                &&& (r is None <==> list@.len() == 0)
                &&& (r matches Option::Some(d) ==> exists|i: int|
                    #[trigger] is_selected(list@, i) && d == list@[i])
            },
        },
{
    match enumeration {
        Option::None => Option::None,
        Option::Some(list) => {
            match select_most_capable(&list) {
                Option::None => Option::None,
                Option::Some(i) => {
                    let d = list[i].clone();
                    proof {
                        assert(is_selected(list@, i as int) && d == list@[i as int]);
                    }
                    Option::Some(d)
                },
            }
        },
    }
}

} // verus!

