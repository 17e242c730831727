use peach_probe::{
    classify, default_services, select_services, Diagnostic, EndpointError, Microservice, Outcome,
    PeachProbe, PeachProbeParseError, ProbeMode, ProbeResult,
};

fn transport() -> EndpointError {
    EndpointError::Transport { detail: "connection refused".to_string() }
}

fn protocol(code: i64) -> EndpointError {
    EndpointError::Protocol { code, detail: "refused".to_string() }
}

fn encoding() -> EndpointError {
    EndpointError::Encoding { detail: "missing field".to_string() }
}

fn all_ok(n: usize) -> Vec<Outcome> {
    (0..n).map(|_| Ok(())).collect()
}

#[test]
fn plain_success_is_recorded_as_success() {
    let mut probe = PeachProbe::new(false);
    let mut result = ProbeResult::new("peach-stats".to_string());
    let d = probe.probe_peach_endpoint(Ok::<u32, EndpointError>(7), "ping", &mut result);
    assert_eq!(result.successes, vec!["ping".to_string()]);
    assert!(result.failures.is_empty());
    assert!(result.is_running);
    assert!(d.is_none());
}

#[test]
fn plain_failure_of_each_kind_is_recorded_as_failure() {
    let mut probe = PeachProbe::new(false);
    for error in [transport(), protocol(-32000), encoding()] {
        let mut result = ProbeResult::new("peach-stats".to_string());
        let d = probe.probe_peach_endpoint(Err::<(), EndpointError>(error), "uptime", &mut result);
        assert!(result.successes.is_empty());
        assert_eq!(result.failures, vec!["uptime".to_string()]);
        assert!(!result.is_running);
        match d {
            Some(Diagnostic::Offline { endpoint, .. }) => assert_eq!(endpoint, "uptime"),
            _ => panic!("a failing endpoint is always reported"),
        }
    }
}

#[test]
fn verbose_probe_reports_healthy_endpoints() {
    let mut probe = PeachProbe::new(true);
    let mut result = ProbeResult::new("peach-oled".to_string());
    let d = probe.probe_peach_endpoint(Ok::<(), EndpointError>(()), "flush", &mut result);
    match d {
        Some(Diagnostic::Online { endpoint }) => assert_eq!(endpoint, "flush"),
        _ => panic!("verbose mode reports healthy endpoints"),
    }
}

#[test]
fn assert_mode_matching_code_is_success() {
    let mut probe = PeachProbe::new(false);
    let mut result = ProbeResult::new("peach-network".to_string());
    let d = probe.probe_assert_error_endpoint(
        Err::<(), EndpointError>(protocol(-32027)),
        "connect",
        -32027,
        &mut result,
    );
    assert_eq!(result.successes, vec!["connect".to_string()]);
    assert!(result.failures.is_empty());
    assert!(result.is_running);
    assert!(d.is_none());
}

#[test]
fn assert_mode_success_is_failure() {
    let mut probe = PeachProbe::new(false);
    let mut result = ProbeResult::new("peach-network".to_string());
    let d = probe.probe_assert_error_endpoint(Ok::<(), EndpointError>(()), "connect", -32027, &mut result);
    assert!(result.successes.is_empty());
    assert_eq!(result.failures, vec!["connect".to_string()]);
    assert!(!result.is_running);
    match d {
        Some(Diagnostic::ShouldNotSucceed { endpoint }) => assert_eq!(endpoint, "connect"),
        _ => panic!("a succeeding assertion-mode endpoint is reported as such"),
    }
}

#[test]
fn assert_mode_other_errors_are_failures() {
    let mut probe = PeachProbe::new(true);
    for error in [protocol(-32013), transport(), encoding()] {
        let mut result = ProbeResult::new("peach-network".to_string());
        let d = probe.probe_assert_error_endpoint(Err::<(), EndpointError>(error), "connect", -32027, &mut result);
        assert!(result.successes.is_empty());
        assert_eq!(result.failures, vec!["connect".to_string()]);
        match d {
            Some(Diagnostic::UnexpectedError { endpoint, expected_code, .. }) => {
                assert_eq!(endpoint, "connect");
                assert_eq!(expected_code, -32027);
            }
            _ => panic!("an unexpected error is reported with its payload"),
        }
    }
}

#[test]
fn unexpected_error_keeps_its_payload() {
    let mut probe = PeachProbe::new(false);
    let mut result = ProbeResult::new("peach-network".to_string());
    let d = probe.probe_assert_error_endpoint(Err::<(), EndpointError>(protocol(-1)), "disable", -32013, &mut result);
    match d {
        Some(Diagnostic::UnexpectedError { error: EndpointError::Protocol { code, detail }, .. }) => {
            assert_eq!(code, -1);
            assert_eq!(detail, "refused");
        }
        _ => panic!("the protocol error is handed back"),
    }
}

#[test]
fn classifying_twice_gives_the_same_verdict() {
    let outcomes: Vec<Result<(), EndpointError>> = vec![Ok(()), Err(protocol(-32027)), Err(transport())];
    let modes = [ProbeMode::Plain, ProbeMode::AssertError { expected_code: -32027 }];
    for outcome in &outcomes {
        for mode in modes {
            assert_eq!(classify(outcome, mode), classify(outcome, mode));
        }
    }
    assert!(classify(&outcomes[0], ProbeMode::Plain));
    assert!(!classify(&outcomes[0], modes[1]));
    assert!(classify(&outcomes[1], modes[1]));
    assert!(!classify(&outcomes[1], ProbeMode::Plain));
    assert!(!classify(&outcomes[2], modes[1]));
}

#[test]
fn reclassifying_files_under_the_same_list() {
    let mut probe = PeachProbe::new(false);
    let mut result = ProbeResult::new("peach-network".to_string());
    probe.probe_assert_error_endpoint(Err::<(), EndpointError>(protocol(-32013)), "disable", -32013, &mut result);
    probe.probe_assert_error_endpoint(Err::<(), EndpointError>(protocol(-32013)), "disable", -32013, &mut result);
    assert_eq!(result.successes, vec!["disable".to_string(), "disable".to_string()]);
    assert!(result.failures.is_empty());
}

#[test]
fn probed_service_partitions_its_endpoints() {
    let mut probe = PeachProbe::new(false);
    let mut outcomes = all_ok(12);
    outcomes.push(Err(protocol(-32027)));
    outcomes.push(Ok(()));
    outcomes[3] = Err(transport());
    let diagnostics = probe.peach_network(outcomes);
    assert_eq!(diagnostics.len(), 14);
    let result = &probe.results[0];
    let declared: Vec<String> = Microservice::PeachNetwork.endpoints().into_iter().map(|e| e.name).collect();
    for name in &declared {
        let in_successes = result.successes.contains(name);
        let in_failures = result.failures.contains(name);
        assert!(in_successes != in_failures, "{} is filed exactly once", name);
    }
    assert_eq!(result.successes.len() + result.failures.len(), declared.len());
    assert_eq!(result.failures, vec!["available_networks".to_string(), "disable".to_string()]);
    assert!(!result.is_running);
}

#[test]
fn running_exactly_when_no_failures() {
    let mut probe = PeachProbe::new(false);
    probe.peach_stats(all_ok(6));
    let mut failing = all_ok(6);
    failing[5] = Err(encoding());
    probe.peach_oled("0.1.4".to_string(), failing);
    for result in &probe.results {
        assert_eq!(result.is_running, result.failures.is_empty());
    }
    assert!(probe.results[0].is_running);
    assert!(!probe.results[1].is_running);
    assert!(!probe.all_running());
}

#[test]
fn ping_ok_and_disk_usage_transport_error() {
    let mut probe = PeachProbe::new(false);
    let mut result = ProbeResult::new("peach-stats".to_string());
    probe.probe_peach_endpoint(Ok::<(), EndpointError>(()), "ping", &mut result);
    probe.probe_peach_endpoint(Err::<(), EndpointError>(transport()), "disk_usage", &mut result);
    assert_eq!(result.successes, vec!["ping".to_string()]);
    assert_eq!(result.failures, vec!["disk_usage".to_string()]);
    assert!(!result.is_running);
}

#[test]
fn connect_refused_with_expected_code_is_success() {
    let mut probe = PeachProbe::new(false);
    let mut outcomes = all_ok(12);
    outcomes.push(Err(protocol(-32027)));
    outcomes.push(Err(protocol(-32013)));
    probe.peach_network(outcomes);
    let result = &probe.results[0];
    assert!(result.successes.contains(&"connect".to_string()));
    assert!(result.successes.contains(&"disable".to_string()));
    assert!(result.failures.is_empty());
    assert!(result.is_running);
}

#[test]
fn connect_succeeding_is_failure_that_should_not_succeed() {
    let mut probe = PeachProbe::new(false);
    let mut outcomes = all_ok(13);
    outcomes.push(Err(protocol(-32013)));
    let diagnostics = probe.peach_network(outcomes);
    let result = &probe.results[0];
    assert_eq!(result.failures, vec!["connect".to_string()]);
    match &diagnostics[12] {
        Some(Diagnostic::ShouldNotSucceed { endpoint }) => assert_eq!(endpoint, "connect"),
        _ => panic!("connect should not succeed"),
    }
}

#[test]
fn two_services_in_probe_order() {
    let mut probe = PeachProbe::new(false);
    probe.peach_stats(all_ok(6));
    let mut outcomes = all_ok(6);
    outcomes[2] = Err(transport());
    probe.peach_oled(String::new(), outcomes);
    assert_eq!(probe.results.len(), 2);
    assert_eq!(probe.results[0].microservice, "peach-stats");
    assert!(probe.results[0].is_running);
    assert_eq!(probe.results[0].successes.len(), 6);
    assert_eq!(probe.results[1].microservice, "peach-oled");
    assert!(!probe.results[1].is_running);
    assert_eq!(probe.results[1].failures, vec!["draw".to_string()]);
    assert_eq!(probe.results[1].version_label(), "unknown");
    assert!(!probe.all_running());
}

#[test]
fn version_label_shows_known_version() {
    let mut probe = PeachProbe::new(false);
    probe.peach_oled("0.1.4".to_string(), all_ok(6));
    assert_eq!(probe.results[0].version, "0.1.4");
    assert_eq!(probe.results[0].version_label(), "0.1.4");
    assert!(probe.all_running());
}

#[test]
fn fresh_probe_has_no_results() {
    let probe = PeachProbe::new(true);
    assert!(probe.results.is_empty());
    assert!(probe.verbose);
    assert!(probe.all_running());
    let result = ProbeResult::new("peach-menu".to_string());
    assert_eq!(result.microservice, "peach-menu");
    assert_eq!(result.version, "");
    assert!(result.is_running);
}

#[test]
fn service_plans_follow_declaration_order() {
    let stats: Vec<String> = Microservice::PeachStats.endpoints().into_iter().map(|e| e.name).collect();
    assert_eq!(stats, vec!["cpu_stats_percent", "load_average", "disk_usage", "mem_stats", "ping", "uptime"]);
    let oled: Vec<String> = Microservice::PeachOled.endpoints().into_iter().map(|e| e.name).collect();
    assert_eq!(oled, vec!["ping", "write", "draw", "flush", "power-off", "power-on"]);
    let network = Microservice::PeachNetwork.endpoints();
    assert_eq!(network.len(), 14);
    assert_eq!(network[12].name, "connect");
    assert_eq!(network[12].mode, ProbeMode::AssertError { expected_code: -32027 });
    assert_eq!(network[13].name, "disable");
    assert_eq!(network[13].mode, ProbeMode::AssertError { expected_code: -32013 });
    assert_eq!(network[0].mode, ProbeMode::Plain);
    assert!(Microservice::PeachMenu.endpoints().is_empty());
    assert!(!Microservice::PeachMenu.has_probe());
    assert!(Microservice::PeachStats.has_probe());
}

#[test]
fn service_ids() {
    assert_eq!(Microservice::PeachOled.id(), "peach-oled");
    assert_eq!(Microservice::PeachNetwork.id(), "peach-network");
    assert_eq!(Microservice::PeachStats.id(), "peach-stats");
    assert_eq!(Microservice::PeachMenu.id(), "peach-menu");
}

#[test]
fn service_names_ignore_case() {
    assert_eq!(Microservice::from_arg("peach_oled").ok(), Some(Microservice::PeachOled));
    assert_eq!(Microservice::from_arg("PEACH_NETWORK").ok(), Some(Microservice::PeachNetwork));
    assert_eq!(Microservice::from_arg("Peach_Stats").ok(), Some(Microservice::PeachStats));
    assert_eq!(Microservice::from_arg("pEaCh_MeNu").ok(), Some(Microservice::PeachMenu));
    assert!(Microservice::from_arg("peach-oled").is_err());
    assert!(Microservice::from_arg("peach_oled ").is_err());
}

#[test]
fn unknown_service_is_rejected_with_message() {
    match Microservice::from_arg("peach_web") {
        Err(e) => {
            let PeachProbeParseError::InvalidMicroservice { arg } = &e;
            assert_eq!(arg, "peach_web");
            assert_eq!(
                e.message(),
                "'peach_web' is not one of the microservice options for peach-probe. \
                 [possible values: Peach_Oled, Peach_Network, Peach_Stats, Peach_Menu]"
            );
        }
        Ok(_) => panic!("peach_web is no service"),
    }
}

#[test]
fn no_arguments_select_default_services() {
    let selected = select_services(&Vec::new()).ok().unwrap();
    assert_eq!(selected, vec![Microservice::PeachNetwork, Microservice::PeachOled, Microservice::PeachStats]);
    assert_eq!(default_services(), selected);
}

#[test]
fn arguments_select_services_in_order() {
    let args = vec!["peach_stats".to_string(), "PEACH_MENU".to_string()];
    assert_eq!(select_services(&args).ok().unwrap(), vec![Microservice::PeachStats, Microservice::PeachMenu]);
    let bad = vec!["peach_stats".to_string(), "nope".to_string(), "other".to_string()];
    match select_services(&bad) {
        Err(PeachProbeParseError::InvalidMicroservice { arg }) => assert_eq!(arg, "nope"),
        Ok(_) => panic!("nope is no service"),
    }
}
