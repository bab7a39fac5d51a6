use libpsensor::kind::{
    TYPE_ATIADL, TYPE_CPU, TYPE_CPU_USAGE, TYPE_GRAPHICS, TYPE_HDD_TEMP, TYPE_MEMORY, TYPE_NVCTRL,
    TYPE_PCIE, TYPE_REMOTE, TYPE_RPM, TYPE_TEMP, TYPE_VIDEO,
};
use libpsensor::SensorType;

const PLAIN: SensorType = SensorType::Other { is_temp: false };
const TEMP: SensorType = SensorType::Other { is_temp: true };

#[test]
fn nvidia_tier() {
    assert_eq!(SensorType::from_raw(TYPE_NVCTRL | TYPE_TEMP), SensorType::Gpu);
    assert_eq!(SensorType::from_raw(TYPE_NVCTRL | TYPE_RPM), SensorType::Fan);
    assert_eq!(SensorType::from_raw(TYPE_NVCTRL | TYPE_GRAPHICS), PLAIN);
    assert_eq!(SensorType::from_raw(TYPE_NVCTRL | TYPE_VIDEO), PLAIN);
    assert_eq!(SensorType::from_raw(TYPE_NVCTRL | TYPE_MEMORY), PLAIN);
    assert_eq!(SensorType::from_raw(TYPE_NVCTRL | TYPE_PCIE), PLAIN);
    assert_eq!(SensorType::from_raw(TYPE_NVCTRL), PLAIN);
}

#[test]
fn amd_tier() {
    assert_eq!(SensorType::from_raw(TYPE_ATIADL | TYPE_TEMP), SensorType::Gpu);
    assert_eq!(SensorType::from_raw(TYPE_ATIADL | TYPE_RPM), SensorType::Fan);
    assert_eq!(SensorType::from_raw(TYPE_ATIADL), PLAIN);
}

#[test]
fn vendor_bits_beat_disk_mask() {
    assert_eq!(SensorType::from_raw(TYPE_NVCTRL | TYPE_HDD_TEMP), SensorType::Gpu);
    assert_eq!(SensorType::from_raw(TYPE_ATIADL | TYPE_HDD_TEMP), SensorType::Gpu);
    assert_ne!(SensorType::from_raw(TYPE_ATIADL | TYPE_HDD_TEMP | TYPE_RPM), SensorType::Hdd);
}

#[test]
fn disk_tier_needs_exact_mask() {
    assert_eq!(SensorType::from_raw(TYPE_HDD_TEMP), SensorType::Hdd);
    assert_eq!(SensorType::from_raw(TYPE_HDD_TEMP | TYPE_RPM), SensorType::Fan);
    assert_eq!(SensorType::from_raw(TYPE_HDD_TEMP | TYPE_REMOTE), TEMP);
}

#[test]
fn cpu_usage_tier_needs_exact_mask() {
    assert_eq!(SensorType::from_raw(TYPE_CPU_USAGE), PLAIN);
    assert_eq!(SensorType::from_raw(TYPE_CPU_USAGE | TYPE_TEMP), SensorType::Cpu);
}

#[test]
fn later_tiers() {
    assert_eq!(SensorType::from_raw(TYPE_RPM), SensorType::Fan);
    assert_eq!(SensorType::from_raw(TYPE_RPM | TYPE_CPU), SensorType::Fan);
    assert_eq!(SensorType::from_raw(TYPE_CPU), SensorType::Cpu);
    assert_eq!(SensorType::from_raw(TYPE_CPU | TYPE_TEMP), SensorType::Cpu);
    assert_eq!(SensorType::from_raw(TYPE_TEMP), TEMP);
    assert_eq!(SensorType::from_raw(TYPE_REMOTE), PLAIN);
    assert_eq!(SensorType::from_raw(TYPE_MEMORY), PLAIN);
}

#[test]
fn every_bitmask_gets_a_kind() {
    assert_eq!(SensorType::from_raw(0), PLAIN);
    assert_eq!(SensorType::from_raw(u32::MAX), SensorType::Gpu);
    for raw in [0u32, 1, 2, 3, 0x4001, 0x8004, 0xffff, u32::MAX] {
        assert_eq!(SensorType::from_raw(raw), SensorType::from_raw(raw));
    }
}

#[test]
fn chip_name_refines_plain_temperatures() {
    assert_eq!(TEMP.refine_by_chip("CPU Core"), SensorType::Cpu);
    assert_eq!(TEMP.refine_by_chip("k10temp CPU"), SensorType::Cpu);
    assert_eq!(TEMP.refine_by_chip("GPU edge"), SensorType::Gpu);
    assert_eq!(TEMP.refine_by_chip("GPU and CPU"), SensorType::Cpu);
    assert_eq!(TEMP.refine_by_chip("acpitz"), TEMP);
    assert_eq!(TEMP.refine_by_chip("cpu"), TEMP);
    assert_eq!(TEMP.refine_by_chip("CP"), TEMP);
    assert_eq!(TEMP.refine_by_chip(""), TEMP);
    assert_eq!(TEMP.refine_by_chip("Temp\u{e9}rature CPU"), SensorType::Cpu);
}

#[test]
fn chip_name_leaves_other_kinds() {
    assert_eq!(SensorType::Fan.refine_by_chip("CPU Fan"), SensorType::Fan);
    assert_eq!(PLAIN.refine_by_chip("CPU usage"), PLAIN);
    assert_eq!(SensorType::Hdd.refine_by_chip("GPU"), SensorType::Hdd);
}
