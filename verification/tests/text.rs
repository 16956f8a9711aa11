use sev_step_lib::config::{Config, CpufreqPinConfig, FixCpuFrequency};
use sev_step_lib::cpufreq::{cpufreq_basepath, pin_cpu_freq, Parameters};
use sev_step_lib::single_stepper::rip_mismatch_message;
use sev_step_lib::api::{SevStepError, SevStepEvent};
use sev_step_lib::text::{decimal, hex, signed_decimal};
use sev_step_lib::types::PageTrackMode;
use sev_step_lib::vmserver_client::{parse_hex_str, ParseHexError};

#[test]
fn decimal_writes_numbers() {
    assert_eq!(decimal(0), "0");
    assert_eq!(decimal(7), "7");
    assert_eq!(decimal(10), "10");
    assert_eq!(decimal(409), "409");
    assert_eq!(decimal(u64::MAX), "18446744073709551615");
}

#[test]
fn hex_writes_numbers() {
    assert_eq!(hex(0), "0");
    assert_eq!(hex(15), "f");
    assert_eq!(hex(16), "10");
    assert_eq!(hex(0xdead_beef), "deadbeef");
    assert_eq!(hex(u64::MAX), "ffffffffffffffff");
}

#[test]
fn rip_mismatch_message_names_step_and_both_values() {
    assert_eq!(rip_mismatch_message(12, 0x401000, 0x401004), "at step 12, expected RIP 0x401000 got 0x401004");
}

#[test]
fn parse_hex_str_reads_with_and_without_prefix() {
    assert_eq!(parse_hex_str("0x10"), Ok(16));
    assert_eq!(parse_hex_str("10"), Ok(16));
    assert_eq!(parse_hex_str("0xdeadBEEF"), Ok(0xdead_beef));
    assert_eq!(parse_hex_str("0"), Ok(0));
    assert_eq!(parse_hex_str("+ff"), Ok(255));
    assert_eq!(parse_hex_str("0x+ff"), Ok(255));
    assert_eq!(parse_hex_str("ffffffffffffffff"), Ok(u64::MAX));
    assert_eq!(parse_hex_str("0x000000000000000000001"), Ok(1));
}

#[test]
fn parse_hex_str_agrees_with_std() {
    for text in ["0x10", "10", "", "0x", "+", "-1", "g", "0x1g", "12345678123456781", "0X10", "x", "0x0x1"] {
        let expected = u64::from_str_radix(text.strip_prefix("0x").unwrap_or(text), 16).ok();
        assert_eq!(parse_hex_str(text).ok(), expected, "for {:?}", text);
    }
}

#[test]
fn parse_hex_str_says_what_is_wrong() {
    assert_eq!(parse_hex_str(""), Err(ParseHexError::Empty));
    assert_eq!(parse_hex_str("0x"), Err(ParseHexError::Empty));
    assert_eq!(parse_hex_str("+"), Err(ParseHexError::InvalidDigit));
    assert_eq!(parse_hex_str("12z4"), Err(ParseHexError::InvalidDigit));
    assert_eq!(parse_hex_str("-12"), Err(ParseHexError::InvalidDigit));
    assert_eq!(parse_hex_str("10000000000000000"), Err(ParseHexError::PosOverflow));
    // what goes wrong first decides
    assert_eq!(parse_hex_str("10000000000000000z"), Err(ParseHexError::PosOverflow));
    assert_eq!(parse_hex_str("1z000000000000000000"), Err(ParseHexError::InvalidDigit));
}

#[test]
fn cpufreq_paths() {
    assert_eq!(cpufreq_basepath(0), "/sys/devices/system/cpu/cpu0/cpufreq/");
    assert_eq!(cpufreq_basepath(17), "/sys/devices/system/cpu/cpu17/cpufreq/");
    assert_eq!(Parameters::ScalingGovernor.to_string(), "scaling_governor");
    assert_eq!(Parameters::ScalingMinFreq.to_string(), "scaling_min_freq");
    assert_eq!(Parameters::ScalingMaxFreq.to_string(), "scaling_max_freq");
}

#[test]
fn pinning_writes_governor_then_both_frequency_bounds() {
    let writes = pin_cpu_freq(9, "performance", "3000000");
    assert_eq!(writes.len(), 3);
    assert_eq!(writes[0].parameter, Parameters::ScalingGovernor);
    assert_eq!(writes[0].file_path, "/sys/devices/system/cpu/cpu9/cpufreq/scaling_governor");
    assert_eq!(writes[0].value, "performance");
    assert_eq!(writes[1].parameter, Parameters::ScalingMinFreq);
    assert_eq!(writes[1].file_path, "/sys/devices/system/cpu/cpu9/cpufreq/scaling_min_freq");
    assert_eq!(writes[1].value, "3000000");
    assert_eq!(writes[2].parameter, Parameters::ScalingMaxFreq);
    assert_eq!(writes[2].file_path, "/sys/devices/system/cpu/cpu9/cpufreq/scaling_max_freq");
    assert_eq!(writes[2].value, "3000000");
}

#[test]
fn config_holds_what_it_is_given() {
    let config = Config {
        vm_cpu_core: 9,
        vm_server_address: "localhost:8080".to_string(),
        qemu_qmp_address: "localhost:4444".to_string(),
        fix_cpu_frequency: FixCpuFrequency::Cpufreq(CpufreqPinConfig {
            governor: "performance".to_string(),
            frequency: 3_000_000,
        }),
    };
    assert_eq!(config.vm_cpu_core, 9);
    match config.fix_cpu_frequency {
        FixCpuFrequency::Cpufreq(pin) => assert_eq!(pin.frequency, 3_000_000),
        FixCpuFrequency::External => panic!("cpufreq was configured"),
    }
}

#[test]
fn signed_decimal_writes_numbers() {
    assert_eq!(signed_decimal(0), "0");
    assert_eq!(signed_decimal(42), "42");
    assert_eq!(signed_decimal(-1), "-1");
    assert_eq!(signed_decimal(-22), "-22");
    assert_eq!(signed_decimal(i64::MAX), "9223372036854775807");
    assert_eq!(signed_decimal(i64::MIN), "-9223372036854775808");
}

#[test]
fn errors_describe_themselves() {
    assert_eq!(SevStepError::Timeout.describe(), "operation timed out");
    assert_eq!(SevStepError::Abort.describe(), "received abort signal");
    assert_eq!(
        SevStepError::TriggerFailed { source: "no route".to_string() }.describe(),
        "failed to execute trigger function : no route"
    );
    assert_eq!(
        SevStepError::PageTracking {
            status: -14,
            gpa: 0x1ff000,
            tracking_mode: PageTrackMode::Access,
            message: "track_page failed".to_string(),
        }
        .describe(),
        "page tracking error, gpa=0x1ff000, mode=Access, message=track_page failed : driver status -14"
    );
    let event = SevStepEvent { retired_instructions: 2, register_values: None, cache_trace: None };
    assert_eq!(SevStepError::MultiStep { event }.describe(), "multi step");
    assert_eq!(
        SevStepError::Other { message: "stop stepping ioctls failed".to_string(), call_status: Some(5) }
            .describe(),
        "stop stepping ioctls failed : driver status 5"
    );
    assert_eq!(
        SevStepError::Other { message: "data not present".to_string(), call_status: None }.describe(),
        "data not present"
    );
}

#[test]
fn track_mode_names() {
    assert_eq!(PageTrackMode::Write.name(), "Write");
    assert_eq!(PageTrackMode::Access.name(), "Access");
    assert_eq!(PageTrackMode::Exec.name(), "Exec");
}
