use nvctl::command::{dispatch, finish, Command, Dispatch, Effect, Exit, Observation, Reply};
use nvctl::error::NvctlError;
use nvctl::gpu::{
    gpu_intel, gpu_nvidia, gpu_query, gpu_query_argument, parse_gpu_name, selector_status, Gpu,
};
use nvctl::power::{
    parse_power_state, power_off, power_on, power_query, power_token, power_write_result,
    PowerState,
};

fn unknown_state(r: Result<PowerState, NvctlError>) -> Option<String> {
    match r {
        Err(NvctlError::UnknownPowerState { state }) => Some(state),
        _ => None,
    }
}

fn unrecognized_name(r: Result<Gpu, NvctlError>) -> Option<String> {
    match r {
        Err(NvctlError::UnrecognizedGpuName { name }) => Some(name),
        _ => None,
    }
}

#[test]
fn power_contents_ending_in_on_are_on() {
    assert_eq!(parse_power_state("ON").unwrap(), PowerState::On);
    assert_eq!(parse_power_state("0000:01:00.0 ON\n").unwrap(), PowerState::On);
    assert_eq!(parse_power_state("  ON  ").unwrap(), PowerState::On);
}

#[test]
fn power_contents_ending_in_off_are_off() {
    assert_eq!(parse_power_state("OFF").unwrap(), PowerState::Off);
    assert_eq!(parse_power_state("0000:01:00.0 OFF\n").unwrap(), PowerState::Off);
}

#[test]
fn power_contents_ending_otherwise_are_unknown() {
    assert_eq!(unknown_state(parse_power_state("  0000:01:00.0 MAYBE\n")), Some("0000:01:00.0 MAYBE".to_string()));
    assert_eq!(unknown_state(parse_power_state("")), Some(String::new()));
    assert_eq!(unknown_state(parse_power_state("on")), Some("on".to_string()));
    assert_eq!(unknown_state(parse_power_state("ON x")), Some("ON x".to_string()));
}

#[test]
fn power_read_failure_is_surface_unavailable() {
    match power_query(Err("No such file or directory".to_string())) {
        Err(NvctlError::PowerSurfaceUnavailable { cause }) => {
            assert_eq!(cause, "No such file or directory")
        }
        other => panic!("unexpected {:?}", other),
    }
    assert_eq!(power_query(Ok("OFF\n".to_string())).unwrap(), PowerState::Off);
}

#[test]
fn power_write_outcomes() {
    assert!(power_write_result(Ok(())).is_ok());
    assert!(matches!(
        power_write_result(Err("Permission denied".to_string())),
        Err(NvctlError::PowerSurfaceUnavailable { .. })
    ));
}

#[test]
fn power_tokens_and_names() {
    assert_eq!(power_on(), "ON");
    assert_eq!(power_off(), "OFF");
    assert_eq!(power_token(PowerState::Off), "OFF");
    assert_eq!(PowerState::On.name(), "on");
    assert_eq!(PowerState::Off.name(), "off");
}

#[test]
fn power_write_then_query_reads_back() {
    // A fake surface that echoes the last write.
    let mut surface = String::new();
    surface.push_str(power_on());
    assert_eq!(power_query(Ok(surface.clone())).unwrap().name(), "on");
    surface = power_off().to_string();
    assert_eq!(power_query(Ok(surface)).unwrap().name(), "off");
}

#[test]
fn gpu_query_output_is_recognized() {
    assert_eq!(parse_gpu_name("intel").unwrap(), Gpu::Intel);
    assert_eq!(parse_gpu_name("  intel \n").unwrap(), Gpu::Intel);
    assert_eq!(parse_gpu_name("nvidia\n").unwrap(), Gpu::Nvidia);
    assert_eq!(Gpu::Nvidia.name(), "nvidia");
}

#[test]
fn gpu_query_output_is_unrecognized() {
    assert_eq!(unrecognized_name(parse_gpu_name("NVIDIA")), Some("NVIDIA".to_string()));
    assert_eq!(unrecognized_name(parse_gpu_name("")), Some(String::new()));
    assert_eq!(unrecognized_name(parse_gpu_name(" amd\n")), Some("amd".to_string()));
}

#[test]
fn gpu_query_decodes_output() {
    assert_eq!(gpu_query(Some(0), b"nvidia\n").unwrap(), Gpu::Nvidia);
    assert_eq!(gpu_query(Some(0), b"\tintel\n").unwrap(), Gpu::Intel);
    assert_eq!(
        unrecognized_name(gpu_query(Some(0), b"int\xffel\n")),
        Some("int\u{fffd}el".to_string())
    );
}

#[test]
fn gpu_query_checks_status_before_output() {
    assert!(matches!(
        gpu_query(Some(2), b"intel\n"),
        Err(NvctlError::SelectorFailed { code: Some(2) })
    ));
    assert!(matches!(
        gpu_query(None, b""),
        Err(NvctlError::SelectorFailed { code: None })
    ));
}

#[test]
fn selector_status_outcomes() {
    assert!(selector_status(Some(0)).is_ok());
    assert!(matches!(selector_status(Some(2)), Err(NvctlError::SelectorFailed { code: Some(2) })));
    assert!(matches!(selector_status(None), Err(NvctlError::SelectorFailed { code: None })));
}

#[test]
fn selector_arguments() {
    assert_eq!(gpu_intel(), "intel");
    assert_eq!(gpu_nvidia(), "nvidia");
    assert_eq!(gpu_query_argument(), "query");
}

#[test]
fn failing_helper_fails_every_gpu_action() {
    for cmd in [Command::GpuIntel, Command::GpuNvidia, Command::GpuQuery] {
        let r = cmd.complete(Observation::Ran { code: Some(2), stdout: b"intel\n".to_vec() });
        assert!(matches!(r, Err(NvctlError::SelectorFailed { code: Some(2) })));
        assert_eq!(finish(false, &r), Exit { code: 1, print_error: true });
        assert_eq!(finish(true, &r), Exit { code: 1, print_error: false });
    }
}

#[test]
fn success_exits_with_zero() {
    let r = Command::GpuIntel.complete(Observation::Ran { code: Some(0), stdout: Vec::new() });
    assert_eq!(r.as_ref().unwrap(), &Reply::Done);
    assert_eq!(finish(false, &r), Exit { code: 0, print_error: false });
    assert_eq!(finish(true, &r), Exit { code: 0, print_error: false });
}

#[test]
fn missing_names_ask_for_help() {
    assert_eq!(dispatch(None, None), Dispatch::Help);
    assert_eq!(dispatch(Some("power"), None), Dispatch::Help);
    assert_eq!(dispatch(Some("gpu"), None), Dispatch::Help);
}

#[test]
fn unknown_names_are_usage_errors() {
    assert_eq!(dispatch(Some("fan"), Some("on")), Dispatch::Usage);
    assert_eq!(dispatch(Some("power"), Some("intel")), Dispatch::Usage);
    assert_eq!(dispatch(Some("gpu"), Some("on")), Dispatch::Usage);
}

#[test]
fn names_dispatch_to_commands() {
    assert_eq!(dispatch(Some("power"), Some("on")), Dispatch::Run(Command::PowerOn));
    assert_eq!(dispatch(Some("power"), Some("off")), Dispatch::Run(Command::PowerOff));
    assert_eq!(dispatch(Some("power"), Some("query")), Dispatch::Run(Command::PowerQuery));
    assert_eq!(dispatch(Some("gpu"), Some("intel")), Dispatch::Run(Command::GpuIntel));
    assert_eq!(dispatch(Some("gpu"), Some("nvidia")), Dispatch::Run(Command::GpuNvidia));
    assert_eq!(dispatch(Some("gpu"), Some("query")), Dispatch::Run(Command::GpuQuery));
}

#[test]
fn commands_have_one_effect() {
    assert_eq!(Command::PowerOn.effect(), Effect::WritePower(PowerState::On));
    assert_eq!(Command::PowerOff.effect(), Effect::WritePower(PowerState::Off));
    assert_eq!(Command::PowerQuery.effect(), Effect::ReadPower);
    assert_eq!(Command::GpuIntel.effect(), Effect::SwitchGpu(Gpu::Intel));
    assert_eq!(Command::GpuNvidia.effect(), Effect::SwitchGpu(Gpu::Nvidia));
    assert_eq!(Command::GpuQuery.effect(), Effect::QueryGpu);
}

#[test]
fn repeated_queries_reply_alike() {
    let read = || Observation::Read(Ok("0000:01:00.0 OFF\n".to_string()));
    let first = Command::PowerQuery.complete(read()).unwrap();
    let second = Command::PowerQuery.complete(read()).unwrap();
    assert_eq!(first, Reply::Power(PowerState::Off));
    assert_eq!(first, second);
    let ran = || Observation::Ran { code: Some(0), stdout: b"intel\n".to_vec() };
    let first = Command::GpuQuery.complete(ran()).unwrap();
    let second = Command::GpuQuery.complete(ran()).unwrap();
    assert_eq!(first, Reply::Gpu(Gpu::Intel));
    assert_eq!(first, second);
}

#[test]
fn power_commands_complete() {
    assert_eq!(Command::PowerOn.complete(Observation::Wrote(Ok(()))).unwrap(), Reply::Done);
    assert!(matches!(
        Command::PowerOff.complete(Observation::Wrote(Err("denied".to_string()))),
        Err(NvctlError::PowerSurfaceUnavailable { .. })
    ));
    assert!(matches!(
        Command::PowerQuery.complete(Observation::Read(Ok("garbage".to_string()))),
        Err(NvctlError::UnknownPowerState { .. })
    ));
}
