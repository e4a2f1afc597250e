use kernel_parameters::catalog::{
    DirtyExpire, DirtyWriteback, DiskIoSched, NmiWatchdog, PcieAspm, PhcControls,
    RadeonDpmForcePerformance, RadeonDpmState, RadeonPowerMethod, RadeonPowerProfile, SndPowerSave,
    SndPowerSaveController,
};
use kernel_parameters::{KernelParameter, SetAction};

#[test]
fn fixed_paths_are_the_declared_constants() {
    assert_eq!(
        DirtyExpire::new().get_path(),
        "/proc/sys/vm/dirty_expire_centisecs"
    );
    assert_eq!(
        DirtyWriteback::new().get_path(),
        "/proc/sys/vm/dirty_writeback_centisecs"
    );
    assert_eq!(NmiWatchdog::new().get_path(), "/proc/sys/kernel/nmi_watchdog");
    assert_eq!(
        PcieAspm::new().get_path(),
        "/sys/module/pcie_aspm/parameters/policy"
    );
}

#[test]
fn fixed_path_is_identical_on_every_call() {
    let p = DirtyExpire::new();
    let first = p.get_path().to_owned();
    assert_eq!(p.get_path(), first);
    assert_eq!(p.get_path(), "/proc/sys/vm/dirty_expire_centisecs");
    assert_eq!(
        DirtyExpire::new().get_path(),
        "/proc/sys/vm/dirty_expire_centisecs"
    );
}

#[test]
fn templated_paths_substitute_the_identifier_once() {
    assert_eq!(
        DiskIoSched::new("sda").get_path(),
        "/sys/block/sda/queue/scheduler"
    );
    assert_eq!(
        PhcControls::new("0").get_path(),
        "/sys/devices/system/cpu/cpu0/cpufreq/phc_controls"
    );
    assert_eq!(
        RadeonDpmState::new("/sys/class/drm/card0").get_path(),
        "/sys/class/drm/card0/device/power_dpm_state"
    );
    assert_eq!(
        RadeonDpmForcePerformance::new("/sys/class/drm/card0").get_path(),
        "/sys/class/drm/card0/device/power_dpm_force_performance_level"
    );
    assert_eq!(
        RadeonPowerMethod::new("/sys/class/drm/card0").get_path(),
        "/sys/class/drm/card0/power_method"
    );
    assert_eq!(
        RadeonPowerProfile::new("/sys/class/drm/card0").get_path(),
        "/sys/class/drm/card0/power_profile"
    );
    assert_eq!(
        SndPowerSave::new("snd_hda_intel").get_path(),
        "/sys/module/snd_hda_intel/parameters/power_save"
    );
    assert_eq!(
        SndPowerSaveController::new("snd_hda_intel").get_path(),
        "/sys/module/snd_hda_intel/parameters/power_save_controller"
    );
}

#[test]
fn templated_path_keeps_an_empty_identifier() {
    assert_eq!(DiskIoSched::new("").get_path(), "/sys/block//queue/scheduler");
}

#[test]
fn templated_path_is_fixed_after_construction() {
    let p = DiskIoSched::new("nvme0n1");
    let first = p.get_path().to_owned();
    assert_eq!(p.get_path(), first);
    assert_eq!(p.get_path(), "/sys/block/nvme0n1/queue/scheduler");
}

#[test]
fn parameter_names_are_distinct_from_paths() {
    assert_eq!(<DirtyExpire as KernelParameter>::name(), "dirty_expire");
    assert_eq!(<DirtyWriteback as KernelParameter>::name(), "dirty_writeback");
    assert_eq!(<NmiWatchdog as KernelParameter>::name(), "nmi_watchdog");
    assert_eq!(<PcieAspm as KernelParameter>::name(), "pcie_aspm");
    assert_eq!(<DiskIoSched as KernelParameter>::name(), "disk_io_scheduler");
    assert_eq!(<PhcControls as KernelParameter>::name(), "phc_controls");
    assert_eq!(<RadeonDpmState as KernelParameter>::name(), "radeon_dpm_state");
    assert_eq!(
        <RadeonDpmForcePerformance as KernelParameter>::name(),
        "radeon_dpm_force_performance_level"
    );
    assert_eq!(
        <RadeonPowerMethod as KernelParameter>::name(),
        "radeon_power_method"
    );
    assert_eq!(
        <RadeonPowerProfile as KernelParameter>::name(),
        "radeon_power_profile"
    );
    assert_eq!(
        <SndPowerSave as KernelParameter>::name(),
        "snd_hda_intel_power_save"
    );
    assert_eq!(
        <SndPowerSaveController as KernelParameter>::name(),
        "snd_hda_intel_power_save_controller"
    );
}

#[test]
fn get_on_a_missing_path_is_absent_with_one_diagnostic() {
    let p = DiskIoSched::new("sda");
    let r = p.get(None);
    assert_eq!(r.value, None);
    assert_eq!(
        r.diagnostic.as_deref(),
        Some("/sys/block/sda/queue/scheduler does not exist")
    );
    assert!(r.diagnostic.unwrap().contains(p.get_path()));
}

#[test]
fn get_on_a_missing_fixed_path_names_that_path() {
    let p = NmiWatchdog::new();
    let r = p.get(None);
    assert_eq!(r.value, None);
    assert_eq!(
        r.diagnostic.as_deref(),
        Some("/proc/sys/kernel/nmi_watchdog does not exist")
    );
}

#[test]
fn get_returns_a_read_value_unmodified() {
    let p = DiskIoSched::new("sda");
    let r = p.get(Some(Ok(String::from("noop deadline [cfq]\n"))));
    assert_eq!(r.value.as_deref(), Some("noop deadline [cfq]\n"));
    assert_eq!(r.diagnostic, None);
}

#[test]
fn get_on_a_failed_read_is_absent_with_the_cause() {
    let p = DirtyExpire::new();
    let r = p.get(Some(Err(String::from("permission denied"))));
    assert_eq!(r.value, None);
    assert_eq!(
        r.diagnostic.as_deref(),
        Some("/proc/sys/vm/dirty_expire_centisecs: failed to get value: permission denied")
    );
}

#[test]
fn set_on_a_missing_path_writes_nothing() {
    let p = DiskIoSched::new("sda");
    match p.set(false, b"noop") {
        SetAction::Skip(line) => {
            assert_eq!(line, "/sys/block/sda/queue/scheduler does not exist");
        }
        SetAction::Write(_) => panic!("a missing path must not be written"),
    }
}

#[test]
fn set_on_an_existing_path_writes_the_exact_bytes() {
    let p = RadeonDpmForcePerformance::new("/sys/class/drm/card0");
    assert_eq!(
        p.get_path(),
        "/sys/class/drm/card0/device/power_dpm_force_performance_level"
    );
    match p.set(true, b"performance") {
        SetAction::Write(bytes) => assert_eq!(bytes.as_slice(), b"performance"),
        SetAction::Skip(_) => panic!("an existing path must be written"),
    }
}

#[test]
fn set_outcome_is_silent_on_success() {
    let p = PcieAspm::new();
    assert_eq!(p.set_outcome(Ok(())), None);
}

#[test]
fn set_outcome_reports_a_failed_write_with_the_cause() {
    let p = PcieAspm::new();
    let line = p.set_outcome(Err(String::from("read-only file system")));
    assert_eq!(
        line.as_deref(),
        Some("/sys/module/pcie_aspm/parameters/policy: failed to set value: read-only file system")
    );
}
