//! The file based cpufreq interface of the kernel: which files are to be
//! written to pin the frequency of a core.

use vstd::prelude::*;
use vstd::string::StringExecFns;
use crate::text::{decimal, spec_decimal};

verus! {

/// The base path of the cpufreq interface for the logical cpu `cpu`.
pub open spec fn spec_cpufreq_basepath(cpu: nat) -> Seq<char> {
    "/sys/devices/system/cpu/cpu"@ + spec_decimal(cpu) + "/cpufreq/"@
}

/// The base path of the cpufreq interface for the logical cpu `cpu`.
pub fn cpufreq_basepath(cpu: usize) -> (r: String)
    ensures
        r@ == spec_cpufreq_basepath(cpu as nat),
{
    let mut path: String = "/sys/devices/system/cpu/cpu".to_owned();
    path.append(decimal(cpu as u64).as_str());
    path.append("/cpufreq/");
    path
}

/// The settings of cpufreq that pinning touches.
#[derive(Clone, Copy, Debug, PartialEq, Eq, Structural)]
pub enum Parameters {
    ScalingGovernor,
    ScalingMinFreq,
    ScalingMaxFreq,
}

impl Parameters {
    /// The name of the file of this setting.
    pub open spec fn spec_file_name(self) -> Seq<char> {
        match self {
            Parameters::ScalingGovernor => "scaling_governor"@,
            Parameters::ScalingMinFreq => "scaling_min_freq"@,
            Parameters::ScalingMaxFreq => "scaling_max_freq"@,
        }
    }

    /// The name of the file of this setting.
    pub fn to_string(&self) -> (r: String)
        ensures
            r@ == self.spec_file_name(),
    {
        match self {
            Parameters::ScalingGovernor => "scaling_governor".to_owned(),
            Parameters::ScalingMinFreq => "scaling_min_freq".to_owned(),
            Parameters::ScalingMaxFreq => "scaling_max_freq".to_owned(),
        }
    }
}

/// One write to a file of cpufreq: the file is to hold `value`
/// afterwards.
pub struct ParameterWrite {
    pub parameter: Parameters,
    pub file_path: String,
    pub value: String,
}

/// A write to a file of cpufreq as contracts see it.
pub struct ParameterWriteView {
    pub parameter: Parameters,
    pub file_path: Seq<char>,
    pub value: Seq<char>,
}

impl View for ParameterWrite {
    type V = ParameterWriteView;

    open spec fn view(&self) -> ParameterWriteView {
        ParameterWriteView {
            parameter: self.parameter,
            file_path: self.file_path@,
            value: self.value@,
        }
    }
}

/// The write that sets `parameter` of the cpu `cpu` to `value`.
pub open spec fn spec_parameter_write(
    cpu: nat,
    parameter: Parameters,
    value: Seq<char>,
) -> ParameterWriteView {
    ParameterWriteView {
        parameter,
        file_path: spec_cpufreq_basepath(cpu) + parameter.spec_file_name(),
        value,
    }
}

fn parameter_write(cpu: usize, parameter: Parameters, value: &str) -> (r: ParameterWrite)
    ensures
        r@ == spec_parameter_write(cpu as nat, parameter, value@),
{
    let mut file_path = cpufreq_basepath(cpu);
    file_path.append(parameter.to_string().as_str());
    ParameterWrite { parameter, file_path, value: value.to_owned() }
}

/// What is to be written to pin the frequency of the cpu `cpu`: the
/// governor, then `freq` as the lowest and as the highest frequency that
/// the governor may choose.
pub fn pin_cpu_freq(cpu: usize, governor: &str, freq: &str) -> (r: Vec<ParameterWrite>)
    ensures
        r@.map_values(|w: ParameterWrite| w@) == seq![
            spec_parameter_write(cpu as nat, Parameters::ScalingGovernor, governor@),
            spec_parameter_write(cpu as nat, Parameters::ScalingMinFreq, freq@),
            spec_parameter_write(cpu as nat, Parameters::ScalingMaxFreq, freq@),
        ],
{
    let mut writes: Vec<ParameterWrite> = Vec::new();
    writes.push(parameter_write(cpu, Parameters::ScalingGovernor, governor));
    writes.push(parameter_write(cpu, Parameters::ScalingMinFreq, freq));
    writes.push(parameter_write(cpu, Parameters::ScalingMaxFreq, freq));
    assert(writes@.map_values(|w: ParameterWrite| w@) =~= seq![
        spec_parameter_write(cpu as nat, Parameters::ScalingGovernor, governor@),
        spec_parameter_write(cpu as nat, Parameters::ScalingMinFreq, freq@),
        spec_parameter_write(cpu as nat, Parameters::ScalingMaxFreq, freq@),
    ]);
    writes
}

} // verus!
