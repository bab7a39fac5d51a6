//! The registry of all discovered sensors: the order in which backends are
//! visited, and the order-stable list of semantic sensors with the readings
//! paired to it.
use vstd::prelude::*;

use crate::kind::{classify, refine};
use crate::sensor::{bound_of, utf8_of, RawSensor, Sensor};

verus! {

/// A native backend that discovers and refreshes sensors.
#[derive(Clone, Copy, Debug, PartialEq, Eq, Structural)]
pub enum Backend {
    Amd,
    Nvidia,
    Udisks2,
    Atasmart,
    Hddtemp,
    Lmsensor,
}

/// The one disk-temperature backend that is active: udisks2 where it is
/// supported, else ATA SMART where that is supported, else hddtemp.
pub open spec fn disk_backend(udisks2_supported: bool, atasmart_supported: bool) -> Backend {
    if udisks2_supported {
        Backend::Udisks2
    } else if atasmart_supported {
        Backend::Atasmart
    } else {
        Backend::Hddtemp
    }
}

/// The backends that one pass visits, in order.
pub open spec fn pass_order(udisks2_supported: bool, atasmart_supported: bool) -> Seq<Backend> {
    seq![Backend::Amd, Backend::Nvidia, disk_backend(udisks2_supported, atasmart_supported), Backend::Lmsensor]
}

/// What a pass asks of the caller next.
#[derive(Clone, Copy, Debug, PartialEq, Eq, Structural)]
pub enum PassAction {
    /// Ask whether this disk backend is supported, and hand the answer to
    /// `PassState::next`.
    Probe(Backend),
    /// Append from (at construction) or refresh (at update) this backend.
    Visit(Backend),
    /// The pass is over.
    Finish,
}

/// Where a pass over the backends stands. Construction and update both run
/// one pass; the disk probes are asked anew in each.
#[derive(Clone, Copy, Debug, PartialEq, Eq, Structural)]
pub enum PassState {
    Amd,
    Nvidia,
    ProbeUdisks2,
    ProbeAtasmart,
    Udisks2,
    Atasmart,
    Hddtemp,
    Lmsensor,
    Done,
}

pub open spec fn action_of(s: PassState) -> PassAction {
    match s {
        PassState::Amd => PassAction::Visit(Backend::Amd),
        PassState::Nvidia => PassAction::Visit(Backend::Nvidia),
        PassState::ProbeUdisks2 => PassAction::Probe(Backend::Udisks2),
        PassState::ProbeAtasmart => PassAction::Probe(Backend::Atasmart),
        PassState::Udisks2 => PassAction::Visit(Backend::Udisks2),
        PassState::Atasmart => PassAction::Visit(Backend::Atasmart),
        PassState::Hddtemp => PassAction::Visit(Backend::Hddtemp),
        PassState::Lmsensor => PassAction::Visit(Backend::Lmsensor),
        PassState::Done => PassAction::Finish,
    }
}

/// The state after the current action; `supported` is the probe's answer
/// and is read only after a probe.
pub open spec fn next_of(s: PassState, supported: bool) -> PassState {
    match s {
        PassState::Amd => PassState::Nvidia,
        PassState::Nvidia => PassState::ProbeUdisks2,
        PassState::ProbeUdisks2 => if supported {
            PassState::Udisks2
        } else {
            PassState::ProbeAtasmart
        },
        PassState::ProbeAtasmart => if supported {
            PassState::Atasmart
        } else {
            PassState::Hddtemp
        },
        PassState::Udisks2 => PassState::Lmsensor,
        PassState::Atasmart => PassState::Lmsensor,
        PassState::Hddtemp => PassState::Lmsensor,
        PassState::Lmsensor => PassState::Done,
        PassState::Done => PassState::Done,
    }
}

/// How many steps are left before `Done`, at most.
pub open spec fn steps_left(s: PassState) -> nat {
    match s {
        PassState::Amd => 7,
        PassState::Nvidia => 6,
        PassState::ProbeUdisks2 => 5,
        PassState::ProbeAtasmart => 4,
        PassState::Udisks2 => 3,
        PassState::Atasmart => 3,
        PassState::Hddtemp => 3,
        PassState::Lmsensor => 1,
        PassState::Done => 0,
    }
}

/// The probe answers a pass gets, by which probe asked.
pub open spec fn answer(s: PassState, udisks2_supported: bool, atasmart_supported: bool) -> bool {
    match s {
        PassState::ProbeUdisks2 => udisks2_supported,
        PassState::ProbeAtasmart => atasmart_supported,
        _ => false,
    }
}

/// The backends visited from state `s` on, when the probes answer as given.
pub open spec fn visits_from(s: PassState, udisks2_supported: bool, atasmart_supported: bool) -> Seq<Backend>
    decreases steps_left(s),
{
    if s == PassState::Done {
        Seq::empty()
    } else {
        let rest = visits_from(
            next_of(s, answer(s, udisks2_supported, atasmart_supported)),
            udisks2_supported,
            atasmart_supported,
        );
        match action_of(s) {
            PassAction::Visit(b) => seq![b].add(rest),
            _ => rest,
        }
    }
}

/// The disk backends probed from state `s` on, when the probes answer as given.
pub open spec fn probes_from(s: PassState, udisks2_supported: bool, atasmart_supported: bool) -> Seq<Backend>
    decreases steps_left(s),
{
    if s == PassState::Done {
        Seq::empty()
    } else {
        let rest = probes_from(
            next_of(s, answer(s, udisks2_supported, atasmart_supported)),
            udisks2_supported,
            atasmart_supported,
        );
        match action_of(s) {
            PassAction::Probe(b) => seq![b].add(rest),
            _ => rest,
        }
    }
}

impl PassState {
    /// The state a pass starts in.
    pub fn start() -> (r: PassState)
        ensures
            r == PassState::Amd,
    {
        PassState::Amd
    }

    /// What the caller is to do in this state.
    pub fn action(&self) -> (r: PassAction)
        ensures
            r == action_of(*self),
    {
        match self {
            PassState::Amd => PassAction::Visit(Backend::Amd),
            PassState::Nvidia => PassAction::Visit(Backend::Nvidia),
            PassState::ProbeUdisks2 => PassAction::Probe(Backend::Udisks2),
            PassState::ProbeAtasmart => PassAction::Probe(Backend::Atasmart),
            PassState::Udisks2 => PassAction::Visit(Backend::Udisks2),
            PassState::Atasmart => PassAction::Visit(Backend::Atasmart),
            PassState::Hddtemp => PassAction::Visit(Backend::Hddtemp),
            PassState::Lmsensor => PassAction::Visit(Backend::Lmsensor),
            PassState::Done => PassAction::Finish,
        }
    }

    /// The state after the caller has done this state's action; `supported`
    /// is the answer to a probe and is ignored after a visit.
    pub fn next(&self, supported: bool) -> (r: PassState)
        ensures
            r == next_of(*self, supported),
            *self != PassState::Done ==> steps_left(r) < steps_left(*self),
    {
        match self {
            PassState::Amd => PassState::Nvidia,
            PassState::Nvidia => PassState::ProbeUdisks2,
            PassState::ProbeUdisks2 => if supported {
                PassState::Udisks2
            } else {
                PassState::ProbeAtasmart
            },
            PassState::ProbeAtasmart => if supported {
                PassState::Atasmart
            } else {
                PassState::Hddtemp
            },
            PassState::Udisks2 => PassState::Lmsensor,
            PassState::Atasmart => PassState::Lmsensor,
            PassState::Hddtemp => PassState::Lmsensor,
            PassState::Lmsensor => PassState::Done,
            PassState::Done => PassState::Done,
        }
    }
}

/// A pass visits the two graphics backends, exactly one disk backend chosen
/// by the probes in their order of preference, and then lm-sensors; the
/// ATA SMART probe is asked only where udisks2 is not supported.
pub proof fn pass_visits_in_priority_order(udisks2_supported: bool, atasmart_supported: bool)
    ensures
        visits_from(PassState::Amd, udisks2_supported, atasmart_supported)
            == pass_order(udisks2_supported, atasmart_supported),
        probes_from(PassState::Amd, udisks2_supported, atasmart_supported) == (if udisks2_supported {
            seq![Backend::Udisks2]
        } else {
            seq![Backend::Udisks2, Backend::Atasmart]
        }),
{
    let u = udisks2_supported;
    let a = atasmart_supported;
    reveal_with_fuel(visits_from, 8);
    reveal_with_fuel(probes_from, 8);
    assert(visits_from(PassState::Amd, u, a) =~= pass_order(u, a));
    if u {
        assert(probes_from(PassState::Amd, u, a) =~= seq![Backend::Udisks2]);
    } else {
        assert(probes_from(PassState::Amd, u, a) =~= seq![Backend::Udisks2, Backend::Atasmart]);
    }
}

/// Whether `s` is the semantic sensor that `Sensor::from_raw` builds from `raw`.
pub open spec fn built_from(s: Sensor, raw: RawSensor) -> bool {
    &&& s.name@ == raw.name@
    &&& s.id@ == raw.id@
    &&& s.chip@ == raw.chip@
    &&& s.kind == refine(classify(raw.type_bits), utf8_of(raw.chip@))
    &&& s.max == bound_of(raw.max_bits)
    &&& s.min == bound_of(raw.min_bits)
}

/// The sensors of one registry, in the order of the native array they were
/// read from. Position `i` here stands for position `i` there for the whole
/// life of the list: nothing is added, removed or reordered.
pub struct SensorList {
    inner: Vec<Sensor>,
}

impl View for SensorList {
    type V = Seq<Sensor>;

    closed spec fn view(&self) -> Seq<Sensor> {
        self.inner@
    }
}

/// Whether `r` pairs each sensor of `list`, in order, with the reading at the
/// same position of `values`.
pub open spec fn pairs_readings(list: Seq<Sensor>, values: Seq<u64>, r: Seq<(&Sensor, u64)>) -> bool {
    &&& r.len() == list.len()
    &&& forall|i: int| 0 <= i < r.len() ==> *(#[trigger] r[i]).0 == list[i] && r[i].1 == values[i]
}

impl SensorList {
    /// Builds the semantic list from the native handles' fields, one sensor
    /// per handle and in the same order.
    pub fn new(raws: Vec<RawSensor>) -> (r: SensorList)
        ensures
            r@.len() == raws@.len(),
            forall|i: int| 0 <= i < raws@.len() ==> built_from(#[trigger] r@[i], raws@[i]),
    {
        let ghost all = raws@;
        let mut inner: Vec<Sensor> = Vec::with_capacity(raws.len());
        for raw in it: raws
            invariant
                it.seq() == all,
                inner@.len() == it.index(),
                forall|k: int| 0 <= k < inner@.len() ==> built_from(#[trigger] inner@[k], all[k]),
        {
            inner.push(Sensor::from_raw(raw));
        }
        SensorList { inner }
    }

    /// The number of sensors.
    pub fn len(&self) -> (r: usize)
        ensures
            r == self@.len(),
    {
        self.inner.len()
    }

    /// The sensors, in their fixed order.
    pub fn sensors(&self) -> (r: &[Sensor])
        ensures
            r@ == self@,
    {
        self.inner.as_slice()
    }

    /// Pairs each sensor with its fresh reading, read from the native array
    /// at the same position after the backends have been refreshed. The list
    /// itself does not change.
    pub fn update<'a>(&'a self, values: &[u64]) -> (r: Vec<(&'a Sensor, u64)>)
        requires
            values@.len() == self@.len(),
        ensures
            pairs_readings(self@, values@, r@),
    {
        let n = self.inner.len();
        let mut r: Vec<(&'a Sensor, u64)> = Vec::with_capacity(n);
        let mut i: usize = 0;
        while i < n
            invariant
                n == self.inner@.len(),
                values@.len() == n,
                i <= n,
                r@.len() == i,
                forall|k: int| 0 <= k < i ==> *(#[trigger] r@[k]).0 == self.inner@[k] && r@[k].1 == values@[k],
            decreases n - i,
        {
            r.push((&self.inner[i], values[i]));
            i = i + 1;
        }
        r
    }
}

/// Two updates of one registry give readings for the same sensors in the
/// same order, position by position; only the readings may differ.
pub proof fn updates_keep_identity_and_order(
    list: Seq<Sensor>,
    first_values: Seq<u64>,
    second_values: Seq<u64>,
    first: Seq<(&Sensor, u64)>,
    second: Seq<(&Sensor, u64)>,
)
    requires
        pairs_readings(list, first_values, first),
        pairs_readings(list, second_values, second),
    ensures
        first.len() == second.len(),
        first.len() == list.len(),
        forall|i: int| 0 <= i < first.len() ==> *(#[trigger] first[i]).0 == *second[i].0,
{
    assert forall|i: int| 0 <= i < first.len() implies *(#[trigger] first[i]).0 == *second[i].0 by {
        assert(*first[i].0 == list[i]);
        assert(*second[i].0 == list[i]);
    }
}

} // verus!
