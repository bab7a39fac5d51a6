//! One sensor as the rest of the system sees it: names, kind and bounds,
//! fixed when the sensor is discovered.
use core::cmp::Ordering;
use vstd::prelude::*;
use vstd::std_specs::cmp::{PartialEqSpec, PartialOrdSpec};
use vstd::string::StringSliceAdditionalSpecFns;
use vstd::utf8::{encode_utf8, encode_utf8_decode_utf8};

use crate::kind::{classify, refine, SensorType};

verus! {

/// The bit pattern of the double that backends store as a bound to say that
/// no bound is configured: the smallest positive normal double.
pub const NO_BOUND_BITS: u64 = 0x0010_0000_0000_0000;

/// A bound as a backend stores it (the bit pattern of a double), read as an
/// optional bound.
pub open spec fn bound_of(bits: u64) -> Option<u64> {
    if bits == NO_BOUND_BITS {
        None
    } else {
        Some(bits)
    }
}

/// The UTF-8 bytes of a text, which is what text comparison orders by.
pub open spec fn utf8_of(s: Seq<char>) -> Seq<u8> {
    encode_utf8(s)
}

/// Lexicographic order of byte strings; a proper prefix comes first.
pub open spec fn lex_cmp(a: Seq<u8>, b: Seq<u8>) -> Ordering
    decreases a.len(),
{
    if a.len() == 0 {
        if b.len() == 0 {
            Ordering::Equal
        } else {
            Ordering::Less
        }
    } else if b.len() == 0 {
        Ordering::Greater
    } else if a[0] < b[0] {
        Ordering::Less
    } else if a[0] > b[0] {
        Ordering::Greater
    } else {
        lex_cmp(a.drop_first(), b.drop_first())
    }
}

/// The fields of one native sensor handle, read out as plain values. Bounds
/// are bit patterns of doubles.
pub struct RawSensor {
    pub name: String,
    pub id: String,
    pub chip: String,
    pub type_bits: u32,
    pub max_bits: u64,
    pub min_bits: u64,
}

/// A discovered sensor. Its identity is its `id`: equality and order look at
/// nothing else. Bounds are bit patterns of doubles, `None` where the backend
/// configured none.
#[derive(Debug)]
pub struct Sensor {
    pub name: String,
    pub id: String,
    pub chip: String,
    pub kind: SensorType,
    pub max: Option<u64>,
    pub min: Option<u64>,
}

impl Sensor {
    /// Builds the semantic sensor from a native handle's fields: the kind is
    /// classified from the bitmask and then refined by the chip's name, and
    /// the no-bound marker becomes `None`.
    pub fn from_raw(raw: RawSensor) -> (r: Sensor)
        ensures
            r.name@ == raw.name@,
            r.id@ == raw.id@,
            r.chip@ == raw.chip@,
            r.kind == refine(classify(raw.type_bits), utf8_of(raw.chip@)),
            r.max == bound_of(raw.max_bits),
            r.min == bound_of(raw.min_bits),
    {
        let kind = SensorType::from_raw(raw.type_bits).refine_by_chip(raw.chip.as_str());
        let max = if raw.max_bits == NO_BOUND_BITS {
            None
        } else {
            Some(raw.max_bits)
        };
        let min = if raw.min_bits == NO_BOUND_BITS {
            None
        } else {
            Some(raw.min_bits)
        };
        Sensor { name: raw.name, id: raw.id, chip: raw.chip, kind, max, min }
    }
}

/// Compares two byte strings lexicographically.
fn compare_bytes(a: &[u8], b: &[u8]) -> (r: Ordering)
    ensures
        r == lex_cmp(a@, b@),
{
    let mut i: usize = 0;
    assert(a@.skip(0) =~= a@);
    assert(b@.skip(0) =~= b@);
    while i < a.len() && i < b.len()
        invariant
            i <= a@.len(),
            i <= b@.len(),
            lex_cmp(a@, b@) == lex_cmp(a@.skip(i as int), b@.skip(i as int)),
        decreases a@.len() - i,
    {
        if a[i] < b[i] {
            return Ordering::Less;
        } else if a[i] > b[i] {
            return Ordering::Greater;
        }
        assert(a@.skip(i as int).drop_first() =~= a@.skip(i + 1));
        assert(b@.skip(i as int).drop_first() =~= b@.skip(i + 1));
        i = i + 1;
    }
    if i < b.len() {
        Ordering::Less
    } else if i < a.len() {
        Ordering::Greater
    } else {
        Ordering::Equal
    }
}

/// Lexicographic comparison says `Equal` exactly of equal byte strings.
pub proof fn lex_cmp_equal_iff_same(a: Seq<u8>, b: Seq<u8>)
    ensures
        lex_cmp(a, b) == Ordering::Equal <==> a == b,
    decreases a.len(),
{
    if a.len() > 0 && b.len() > 0 && a[0] == b[0] {
        lex_cmp_equal_iff_same(a.drop_first(), b.drop_first());
        if a.drop_first() == b.drop_first() {
            assert(a =~= seq![a[0]].add(a.drop_first()));
            assert(b =~= seq![b[0]].add(b.drop_first()));
        }
        if a == b {
            assert(a.drop_first() == b.drop_first());
        }
    } else if a.len() == 0 && b.len() == 0 {
        assert(a =~= b);
    }
}

/// A sensor's identity is its id: two sensors are equal exactly when their
/// ids are, they compare as their ids' bytes compare, and they compare as
/// equal exactly when they are equal.
pub proof fn sensor_identity_is_its_id(a: Sensor, b: Sensor)
    ensures
        a.eq_spec(&b) <==> a.id@ == b.id@,
        a.partial_cmp_spec(&b) == Some(lex_cmp(utf8_of(a.id@), utf8_of(b.id@))),
        a.partial_cmp_spec(&b) == Some(Ordering::Equal) <==> a.eq_spec(&b),
{
    lex_cmp_equal_iff_same(utf8_of(a.id@), utf8_of(b.id@));
    encode_utf8_decode_utf8(a.id@);
    encode_utf8_decode_utf8(b.id@);
}

impl PartialEq for Sensor {
    fn eq(&self, other: &Sensor) -> (r: bool)
        ensures
            r == (self.id@ == other.id@),
    {
        self.id == other.id
    }
}

impl vstd::std_specs::cmp::PartialEqSpecImpl for Sensor {
    open spec fn obeys_eq_spec() -> bool {
        true
    }

    open spec fn eq_spec(&self, other: &Sensor) -> bool {
        self.id@ == other.id@
    }
}

impl Eq for Sensor {}

impl PartialOrd for Sensor {
    fn partial_cmp(&self, other: &Sensor) -> (r: Option<Ordering>)
        ensures
            r == Some(lex_cmp(utf8_of(self.id@), utf8_of(other.id@))),
    {
        let a = self.id.as_str().as_bytes();
        let b = other.id.as_str().as_bytes();
        Some(compare_bytes(a, b))
    }
}

impl vstd::std_specs::cmp::PartialOrdSpecImpl for Sensor {
    open spec fn obeys_partial_cmp_spec() -> bool {
        true
    }

    open spec fn partial_cmp_spec(&self, other: &Sensor) -> Option<Ordering> {
        Some(lex_cmp(utf8_of(self.id@), utf8_of(other.id@)))
    }
}

impl core::hash::Hash for Sensor {
    /// Relies on `Hash for String`: a sensor hashes as its id alone, so that
    /// equal sensors hash alike.
    #[verifier::external_body]
    fn hash<H: core::hash::Hasher>(&self, state: &mut H) {
        self.id.hash(state)
    }
}

} // verus!
