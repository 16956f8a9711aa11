//! What a program that uses this library is configured with.

use vstd::prelude::*;

verus! {

/// How the frequency of a core is pinned through cpufreq.
pub struct CpufreqPinConfig {
    pub governor: String,
    pub frequency: usize,
}

/// Who keeps the frequency of the guest's core fixed.
pub enum FixCpuFrequency {
    /// Somebody else has seen to it.
    External,
    /// The program pins it through cpufreq.
    Cpufreq(CpufreqPinConfig),
}

/// What the program is told about the guest and its surroundings.
pub struct Config {
    /// cpu core to which the vm should be pinned
    pub vm_cpu_core: usize,
    /// ip:port where the victim service is listening
    pub vm_server_address: String,
    /// ip:port where the monitor of the hypervisor is reachable
    pub qemu_qmp_address: String,
    /// method for fixating the cpu frequency of the vm core
    pub fix_cpu_frequency: FixCpuFrequency,
}

} // verus!
