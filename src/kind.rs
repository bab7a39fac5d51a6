//! The semantic taxonomy of sensors and the classification of a backend's raw
//! capability bitmask into it.
use vstd::prelude::*;
use vstd::string::StringSliceAdditionalSpecFns;

verus! {

/// The reading is a temperature.
pub const TYPE_TEMP: u32 = 0x1;

/// The reading is a rotation speed.
pub const TYPE_RPM: u32 = 0x2;

/// The reading is a percentage.
pub const TYPE_PERCENT: u32 = 0x4;

/// The sensor is read over the network.
pub const TYPE_REMOTE: u32 = 0x8;

/// Reported by the NVIDIA control backend.
pub const TYPE_NVCTRL: u32 = 0x200;

/// Reported by the AMD display library backend.
pub const TYPE_ATIADL: u32 = 0x800;

/// The component is a disk.
pub const TYPE_HDD: u32 = 0x4000;

/// The component is a processor.
pub const TYPE_CPU: u32 = 0x8000;

/// Graphics engine usage.
pub const TYPE_GRAPHICS: u32 = 0x40000;

/// Video engine usage.
pub const TYPE_VIDEO: u32 = 0x80000;

/// PCIe bus usage.
pub const TYPE_PCIE: u32 = 0x100000;

/// Memory usage.
pub const TYPE_MEMORY: u32 = 0x200000;

/// A disk temperature: both `TYPE_HDD` and `TYPE_TEMP`.
pub const TYPE_HDD_TEMP: u32 = TYPE_HDD | TYPE_TEMP;

/// A processor usage: both `TYPE_CPU` and `TYPE_PERCENT`.
pub const TYPE_CPU_USAGE: u32 = TYPE_CPU | TYPE_PERCENT;

/// What a sensor measures, as the rest of the system sees it.
#[derive(Clone, Copy, Debug, PartialEq, Eq, Structural, PartialOrd, Ord, Hash)]
pub enum SensorType {
    Hdd,
    Cpu,
    Gpu,
    Fan,
    Other { is_temp: bool },
}

/// Whether any of the bits of `flag` is set in `raw`.
pub open spec fn has_flag(raw: u32, flag: u32) -> bool {
    raw & flag != 0
}

/// The classification of a raw bitmask: the first of these tiers that
/// applies decides, and a bitmask that no tier claims is a plain `Other`.
pub open spec fn classify(raw: u32) -> SensorType {
    if has_flag(raw, TYPE_NVCTRL) {
        if has_flag(raw, TYPE_TEMP) {
            SensorType::Gpu
        } else if has_flag(raw, TYPE_RPM) {
            SensorType::Fan
        } else {
            SensorType::Other { is_temp: false }
        }
    } else if has_flag(raw, TYPE_ATIADL) {
        if has_flag(raw, TYPE_TEMP) {
            SensorType::Gpu
        } else if has_flag(raw, TYPE_RPM) {
            SensorType::Fan
        } else {
            SensorType::Other { is_temp: false }
        }
    } else if raw == TYPE_HDD_TEMP {
        SensorType::Hdd
    } else if raw == TYPE_CPU_USAGE {
        SensorType::Other { is_temp: false }
    } else if has_flag(raw, TYPE_RPM) {
        SensorType::Fan
    } else if has_flag(raw, TYPE_CPU) {
        SensorType::Cpu
    } else if has_flag(raw, TYPE_TEMP) {
        SensorType::Other { is_temp: true }
    } else {
        SensorType::Other { is_temp: false }
    }
}

/// Whether `pat` occurs in `s` as a contiguous run.
pub open spec fn has_infix(s: Seq<u8>, pat: Seq<u8>) -> bool {
    exists|i: int| 0 <= i && i + pat.len() <= s.len() && #[trigger] s.subrange(i, i + pat.len()) == pat
}

/// The bytes of the text "CPU".
pub open spec fn cpu_tag() -> Seq<u8> {
    seq![0x43u8, 0x50u8, 0x55u8]
}

/// The bytes of the text "GPU".
pub open spec fn gpu_tag() -> Seq<u8> {
    seq![0x47u8, 0x50u8, 0x55u8]
}

/// The kind after the chip-name heuristic: an otherwise unclassified
/// temperature is a processor's if the chip's name (as UTF-8 bytes) holds
/// "CPU", else a graphics card's if it holds "GPU". Every other kind stays.
pub open spec fn refine(kind: SensorType, chip: Seq<u8>) -> SensorType {
    if kind == (SensorType::Other { is_temp: true }) {
        if has_infix(chip, cpu_tag()) {
            SensorType::Cpu
        } else if has_infix(chip, gpu_tag()) {
            SensorType::Gpu
        } else {
            kind
        }
    } else {
        kind
    }
}

/// Classification is a total function of the bitmask: every bitmask gets
/// exactly one kind, and the same bitmask always gets the same one.
pub proof fn classification_is_total_and_deterministic(raw: u32, first: SensorType, second: SensorType)
    requires
        first == classify(raw),
        second == classify(raw),
    ensures
        first == second,
        first is Hdd || first is Cpu || first is Gpu || first is Fan || first is Other,
{
}

/// The graphics-vendor tiers come first: a bitmask carrying either vendor's
/// bit is a graphics card's temperature, a fan, or a usage, whatever else it
/// carries, and never a disk.
pub proof fn vendor_bits_take_priority(raw: u32)
    requires
        has_flag(raw, TYPE_NVCTRL) || has_flag(raw, TYPE_ATIADL),
    ensures
        classify(raw) == SensorType::Gpu || classify(raw) == SensorType::Fan
            || classify(raw) == (SensorType::Other { is_temp: false }),
        classify(raw) != SensorType::Hdd,
{
}

/// The disk-temperature and processor-usage tiers match their mask exactly:
/// a bitmask is a disk exactly when it equals the disk-temperature mask, and
/// the processor-usage mask with any further bit falls through to the later
/// tiers.
pub proof fn usage_and_disk_tiers_match_exactly(raw: u32)
    ensures
        classify(raw) == SensorType::Hdd <==> raw == TYPE_HDD_TEMP,
        raw == TYPE_CPU_USAGE ==> classify(raw) == (SensorType::Other { is_temp: false }),
        raw & TYPE_CPU_USAGE == TYPE_CPU_USAGE && raw != TYPE_CPU_USAGE && !has_flag(raw, TYPE_NVCTRL)
            && !has_flag(raw, TYPE_ATIADL) && !has_flag(raw, TYPE_RPM) ==> classify(raw) == SensorType::Cpu,
{
    assert(0x4000u32 | 0x1u32 == 0x4001u32 && 0x8000u32 | 0x4u32 == 0x8004u32) by (bit_vector);
    assert(0x4001u32 & 0x200u32 == 0 && 0x4001u32 & 0x800u32 == 0) by (bit_vector);
    assert(0x8004u32 & 0x200u32 == 0 && 0x8004u32 & 0x800u32 == 0 && 0x8004u32 & 0x2u32 == 0) by (bit_vector);
    assert(raw & 0x8004u32 == 0x8004u32 ==> raw & 0x8000u32 != 0 && raw != 0x4001u32) by (bit_vector);
}

/// The chip-name heuristic touches only unclassified temperatures: every
/// other kind stays as the bitmask made it.
pub proof fn chip_override_only_for_plain_temperatures(kind: SensorType, chip: Seq<u8>)
    requires
        kind != (SensorType::Other { is_temp: true }),
    ensures
        refine(kind, chip) == kind,
{
}

impl SensorType {
    /// Classifies a raw capability bitmask. Total: every bitmask gets a kind.
    pub fn from_raw(raw: u32) -> (r: SensorType)
        ensures
            r == classify(raw),
    {
        if raw & TYPE_NVCTRL != 0 {
            if raw & TYPE_TEMP != 0 {
                SensorType::Gpu
            } else if raw & TYPE_RPM != 0 {
                SensorType::Fan
            } else {
                // graphics, video, memory, PCIe or overall usage
                SensorType::Other { is_temp: false }
            }
        } else if raw & TYPE_ATIADL != 0 {
            if raw & TYPE_TEMP != 0 {
                SensorType::Gpu
            } else if raw & TYPE_RPM != 0 {
                SensorType::Fan
            } else {
                SensorType::Other { is_temp: false }
            }
        } else if raw == TYPE_HDD_TEMP {
            SensorType::Hdd
        } else if raw == TYPE_CPU_USAGE {
            SensorType::Other { is_temp: false }
        } else if raw & TYPE_RPM != 0 {
            SensorType::Fan
        } else if raw & TYPE_CPU != 0 {
            SensorType::Cpu
        } else if raw & TYPE_TEMP != 0 {
            SensorType::Other { is_temp: true }
        } else {
            // remote, memory, or nothing known
            SensorType::Other { is_temp: false }
        }
    }

    /// Applies the chip-name heuristic to a kind found from the bitmask.
    pub fn refine_by_chip(self, chip: &str) -> (r: SensorType)
        ensures
            r == refine(self, chip.spec_bytes()),
    {
        match self {
            SensorType::Other { is_temp: true } => {
                let bytes = chip.as_bytes();
                if contains_tag(bytes, 0x43u8, 0x50u8, 0x55u8) {
                    SensorType::Cpu
                } else if contains_tag(bytes, 0x47u8, 0x50u8, 0x55u8) {
                    SensorType::Gpu
                } else {
                    self
                }
            },
            _ => self,
        }
    }
}

/// Whether the three bytes `a`, `b`, `c` occur in a row in `s`.
fn contains_tag(s: &[u8], a: u8, b: u8, c: u8) -> (r: bool)
    ensures
        r == has_infix(s@, seq![a, b, c]),
{
    let n = s.len();
    let mut i: usize = 0;
    while n - i >= 3
        invariant
            n == s@.len(),
            i <= n,
            forall|j: int| 0 <= j < i ==> #[trigger] s@.subrange(j, j + 3) != seq![a, b, c],
        decreases n - i,
    {
        if s[i] == a && s[i + 1] == b && s[i + 2] == c {
            assert(s@.subrange(i as int, i + 3) =~= seq![a, b, c]);
            return true;
        }
        assert(s@.subrange(i as int, i + 3)[0] == s@[i as int]);
        assert(s@.subrange(i as int, i + 3)[1] == s@[i + 1]);
        assert(s@.subrange(i as int, i + 3)[2] == s@[i + 2]);
        i = i + 1;
    }
    false
}

} // verus!
