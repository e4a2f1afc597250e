//! The catalog of known kernel parameters.
//!
//! Each entry binds a diagnostic name and a path to the contract in the crate
//! root. Fixed-path parameters carry no state: their path is a compile-time
//! constant, identical on every system where the file exists. Templated-path
//! parameters are constructed from one runtime identifier — a device name, a
//! core index, a sysfs directory — substituted into a fixed template; the
//! resulting path is owned by the instance and never changes afterwards.
//! Construction never fails: a malformed identifier merely yields a path that
//! will not exist, which the contract degrades to a diagnostic line.

use vstd::prelude::*;

use crate::KernelParameter;

verus! {

use vstd::string::StringExecFns;

/// The path template `prefix ++ "{}" ++ suffix` with the placeholder replaced
/// by `unique`, exactly once and with no other characters altered.
pub open spec fn substituted_path(prefix: Seq<char>, unique: Seq<char>, suffix: Seq<char>) -> Seq<
    char,
> {
    prefix + unique + suffix
}

/// Builds the path of a templated parameter from its template's two fixed
/// pieces and the runtime identifier.
fn build_path(prefix: &str, unique: &str, suffix: &str) -> (r: String)
    ensures
        r@ == substituted_path(prefix@, unique@, suffix@),
{
    let mut s = prefix.to_owned();
    s.append(unique);
    s.append(suffix);
    s
}

// Fixed-path parameters: one pseudo-file each, known in full at compile time.

/// The dirty-page expiry timer, in centiseconds.
pub struct DirtyExpire;

impl DirtyExpire {
    pub fn new() -> (r: DirtyExpire) {
        DirtyExpire
    }
}

impl KernelParameter for DirtyExpire {
    open spec fn path_spec(&self) -> Seq<char> {
        "/proc/sys/vm/dirty_expire_centisecs"@
    }

    open spec fn name_spec() -> Seq<char> {
        "dirty_expire"@
    }

    fn name() -> (r: &'static str) {
        "dirty_expire"
    }

    fn get_path(&self) -> (r: &str) {
        "/proc/sys/vm/dirty_expire_centisecs"
    }
}

/// The dirty-page writeback interval, in centiseconds.
pub struct DirtyWriteback;

impl DirtyWriteback {
    pub fn new() -> (r: DirtyWriteback) {
        DirtyWriteback
    }
}

impl KernelParameter for DirtyWriteback {
    open spec fn path_spec(&self) -> Seq<char> {
        "/proc/sys/vm/dirty_writeback_centisecs"@
    }

    open spec fn name_spec() -> Seq<char> {
        "dirty_writeback"@
    }

    fn name() -> (r: &'static str) {
        "dirty_writeback"
    }

    fn get_path(&self) -> (r: &str) {
        "/proc/sys/vm/dirty_writeback_centisecs"
    }
}

/// The NMI watchdog toggle.
pub struct NmiWatchdog;

impl NmiWatchdog {
    pub fn new() -> (r: NmiWatchdog) {
        NmiWatchdog
    }
}

impl KernelParameter for NmiWatchdog {
    open spec fn path_spec(&self) -> Seq<char> {
        "/proc/sys/kernel/nmi_watchdog"@
    }

    open spec fn name_spec() -> Seq<char> {
        "nmi_watchdog"@
    }

    fn name() -> (r: &'static str) {
        "nmi_watchdog"
    }

    fn get_path(&self) -> (r: &str) {
        "/proc/sys/kernel/nmi_watchdog"
    }
}

/// The PCIe active-state power-management policy.
pub struct PcieAspm;

impl PcieAspm {
    pub fn new() -> (r: PcieAspm) {
        PcieAspm
    }
}

impl KernelParameter for PcieAspm {
    open spec fn path_spec(&self) -> Seq<char> {
        "/sys/module/pcie_aspm/parameters/policy"@
    }

    open spec fn name_spec() -> Seq<char> {
        "pcie_aspm"@
    }

    fn name() -> (r: &'static str) {
        "pcie_aspm"
    }

    fn get_path(&self) -> (r: &str) {
        "/sys/module/pcie_aspm/parameters/policy"
    }
}

// Templated-path parameters: the template's placeholder is filled with a
// runtime identifier at construction, and the owned path is fixed from then
// on.

/// The I/O scheduler of one block device, from the template
/// `/sys/block/{}/queue/scheduler`.
pub struct DiskIoSched {
    path: String,
}

impl DiskIoSched {
    pub fn new(unique: &str) -> (r: DiskIoSched)
        ensures
            r.path_spec() == substituted_path("/sys/block/"@, unique@, "/queue/scheduler"@),
    {
        DiskIoSched { path: build_path("/sys/block/", unique, "/queue/scheduler") }
    }
}

impl KernelParameter for DiskIoSched {
    closed spec fn path_spec(&self) -> Seq<char> {
        self.path@
    }

    open spec fn name_spec() -> Seq<char> {
        "disk_io_scheduler"@
    }

    fn name() -> (r: &'static str) {
        "disk_io_scheduler"
    }

    fn get_path(&self) -> (r: &str) {
        self.path.as_str()
    }
}

/// The frequency-scaling controls of one CPU core, from the template
/// `/sys/devices/system/cpu/cpu{}/cpufreq/phc_controls`.
pub struct PhcControls {
    path: String,
}

impl PhcControls {
    pub fn new(unique: &str) -> (r: PhcControls)
        ensures
            r.path_spec() == substituted_path(
                "/sys/devices/system/cpu/cpu"@,
                unique@,
                "/cpufreq/phc_controls"@,
            ),
    {
        PhcControls {
            path: build_path("/sys/devices/system/cpu/cpu", unique, "/cpufreq/phc_controls"),
        }
    }
}

impl KernelParameter for PhcControls {
    closed spec fn path_spec(&self) -> Seq<char> {
        self.path@
    }

    open spec fn name_spec() -> Seq<char> {
        "phc_controls"@
    }

    fn name() -> (r: &'static str) {
        "phc_controls"
    }

    fn get_path(&self) -> (r: &str) {
        self.path.as_str()
    }
}

/// The dynamic power-management state of one GPU, from the template
/// `{}/device/power_dpm_state`.
pub struct RadeonDpmState {
    path: String,
}

impl RadeonDpmState {
    pub fn new(unique: &str) -> (r: RadeonDpmState)
        ensures
            r.path_spec() == substituted_path(""@, unique@, "/device/power_dpm_state"@),
    {
        RadeonDpmState { path: build_path("", unique, "/device/power_dpm_state") }
    }
}

impl KernelParameter for RadeonDpmState {
    closed spec fn path_spec(&self) -> Seq<char> {
        self.path@
    }

    open spec fn name_spec() -> Seq<char> {
        "radeon_dpm_state"@
    }

    fn name() -> (r: &'static str) {
        "radeon_dpm_state"
    }

    fn get_path(&self) -> (r: &str) {
        self.path.as_str()
    }
}

/// The forced performance level of one GPU, from the template
/// `{}/device/power_dpm_force_performance_level`.
pub struct RadeonDpmForcePerformance {
    path: String,
}

impl RadeonDpmForcePerformance {
    pub fn new(unique: &str) -> (r: RadeonDpmForcePerformance)
        ensures
            r.path_spec() == substituted_path(
                ""@,
                unique@,
                "/device/power_dpm_force_performance_level"@,
            ),
    {
        RadeonDpmForcePerformance {
            path: build_path("", unique, "/device/power_dpm_force_performance_level"),
        }
    }
}

impl KernelParameter for RadeonDpmForcePerformance {
    closed spec fn path_spec(&self) -> Seq<char> {
        self.path@
    }

    open spec fn name_spec() -> Seq<char> {
        "radeon_dpm_force_performance_level"@
    }

    fn name() -> (r: &'static str) {
        "radeon_dpm_force_performance_level"
    }

    fn get_path(&self) -> (r: &str) {
        self.path.as_str()
    }
}

/// The power method of one GPU, from the template `{}/power_method`.
pub struct RadeonPowerMethod {
    path: String,
}

impl RadeonPowerMethod {
    pub fn new(unique: &str) -> (r: RadeonPowerMethod)
        ensures
            r.path_spec() == substituted_path(""@, unique@, "/power_method"@),
    {
        RadeonPowerMethod { path: build_path("", unique, "/power_method") }
    }
}

impl KernelParameter for RadeonPowerMethod {
    closed spec fn path_spec(&self) -> Seq<char> {
        self.path@
    }

    open spec fn name_spec() -> Seq<char> {
        "radeon_power_method"@
    }

    fn name() -> (r: &'static str) {
        "radeon_power_method"
    }

    fn get_path(&self) -> (r: &str) {
        self.path.as_str()
    }
}

/// The power profile of one GPU, from the template `{}/power_profile`.
pub struct RadeonPowerProfile {
    path: String,
}

impl RadeonPowerProfile {
    pub fn new(unique: &str) -> (r: RadeonPowerProfile)
        ensures
            r.path_spec() == substituted_path(""@, unique@, "/power_profile"@),
    {
        RadeonPowerProfile { path: build_path("", unique, "/power_profile") }
    }
}

impl KernelParameter for RadeonPowerProfile {
    closed spec fn path_spec(&self) -> Seq<char> {
        self.path@
    }

    open spec fn name_spec() -> Seq<char> {
        "radeon_power_profile"@
    }

    fn name() -> (r: &'static str) {
        "radeon_power_profile"
    }

    fn get_path(&self) -> (r: &str) {
        self.path.as_str()
    }
}

/// The power-saving timeout of one sound module, from the template
/// `/sys/module/{}/parameters/power_save`.
pub struct SndPowerSave {
    path: String,
}

impl SndPowerSave {
    pub fn new(unique: &str) -> (r: SndPowerSave)
        ensures
            r.path_spec() == substituted_path("/sys/module/"@, unique@, "/parameters/power_save"@),
    {
        SndPowerSave { path: build_path("/sys/module/", unique, "/parameters/power_save") }
    }
}

impl KernelParameter for SndPowerSave {
    closed spec fn path_spec(&self) -> Seq<char> {
        self.path@
    }

    open spec fn name_spec() -> Seq<char> {
        "snd_hda_intel_power_save"@
    }

    fn name() -> (r: &'static str) {
        "snd_hda_intel_power_save"
    }

    fn get_path(&self) -> (r: &str) {
        self.path.as_str()
    }
}

/// The controller power-saving toggle of one sound module, from the template
/// `/sys/module/{}/parameters/power_save_controller`.
pub struct SndPowerSaveController {
    path: String,
}

impl SndPowerSaveController {
    pub fn new(unique: &str) -> (r: SndPowerSaveController)
        ensures
            r.path_spec() == substituted_path(
                "/sys/module/"@,
                unique@,
                "/parameters/power_save_controller"@,
            ),
    {
        SndPowerSaveController {
            path: build_path("/sys/module/", unique, "/parameters/power_save_controller"),
        }
    }
}

impl KernelParameter for SndPowerSaveController {
    closed spec fn path_spec(&self) -> Seq<char> {
        self.path@
    }

    open spec fn name_spec() -> Seq<char> {
        "snd_hda_intel_power_save_controller"@
    }

    fn name() -> (r: &'static str) {
        "snd_hda_intel_power_save_controller"
    }

    fn get_path(&self) -> (r: &str) {
        self.path.as_str()
    }
}

} // verus!
