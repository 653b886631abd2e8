//! The diagnostic pipeline, driven step by step.

use denginks_opcua_diagnostic::diagnostics::{
    DiagnosticEngine, DiagRequest, StepId, StepStatus,
};
use denginks_opcua_diagnostic::discovery::EndpointInfo;
use denginks_opcua_diagnostic::i18n::Language;

fn endpoint(url: &str) -> EndpointInfo {
    EndpointInfo {
        security_policy_name: "None".to_string(),
        security_mode: "None".to_string(),
        has_certificate: false,
        user_tokens: vec!["Anonymous (anonymous)".to_string()],
        endpoint_url: url.to_string(),
    }
}

#[test]
fn test_invalid_input_fails_validation_only() {
    let (engine, stream) = DiagnosticEngine::new("http://x:1", Language::English);
    assert_eq!(stream.len(), 2);
    assert_eq!(stream[1].status, StepStatus::Failed);
    assert_eq!(stream[1].details, "Only opc.tcp:// scheme is supported");
    assert!(matches!(engine.next_request(), DiagRequest::Finished));
    let result = engine.complete(12);
    assert_eq!(result.steps.len(), 1);
    assert_eq!(result.steps[0].id, StepId::ValidateInput);
    assert!(!result.overall_success);
    assert_eq!(result.total_duration_ms, 12);
}

#[test]
fn test_invalid_input_joins_all_errors() {
    let (_, stream) = DiagnosticEngine::new("[::1", Language::English);
    assert_eq!(
        stream[1].details,
        "Invalid IPv6 address format, Host cannot be empty"
    );
}

#[test]
fn test_closed_port_fails_scan_and_skips_discovery() {
    let (mut engine, _) = DiagnosticEngine::new("192.168.1.50:4841", Language::English);
    assert!(matches!(engine.next_request(), DiagRequest::ResolveHost(_)));
    engine.on_resolved(Ok("192.168.1.50".to_string()), 3);

    match engine.next_request() {
        DiagRequest::ProbePort { host, port } => {
            assert_eq!(host, "192.168.1.50");
            assert_eq!(port, 4841);
        }
        other => panic!("expected a probe, got {:?}", std::mem::discriminant(&other)),
    }
    engine.on_port_probed(false, 8);

    assert!(matches!(engine.next_request(), DiagRequest::Finished));
    let result = engine.complete(20);
    let scan = result.steps.iter().find(|s| s.id == StepId::ScanPorts).expect("scan step");
    assert_eq!(scan.status, StepStatus::Failed);
    assert!(!result.overall_success);
    assert!(result.steps.iter().all(|s| s.id != StepId::DiscoverEndpoints));
    assert_eq!(result.open_ports.len(), 1);
    assert!(!result.open_ports[0].open);
}

#[test]
fn test_open_port_with_endpoints_succeeds() {
    let (mut engine, _) = DiagnosticEngine::new("10.0.0.5:4840", Language::English);
    engine.on_resolved(Ok("10.0.0.5".to_string()), 2);
    engine.on_port_probed(true, 4);

    match engine.next_request() {
        DiagRequest::Discover(url) => assert_eq!(url, "opc.tcp://10.0.0.5:4840"),
        _ => panic!("expected a discovery request"),
    }
    engine.on_discovered(Ok(vec![endpoint("opc.tcp://10.0.0.5:4840/UA"), endpoint("opc.tcp://10.0.0.5:4840/UA2")]), 9);

    assert!(matches!(engine.next_request(), DiagRequest::Finished));
    let result = engine.complete(31);
    assert!(result.overall_success);
    assert_eq!(result.recommended_url.as_deref(), Some("opc.tcp://10.0.0.5:4840/UA"));
    assert_eq!(result.endpoints.len(), 2);
    let disc = result.steps.iter().find(|s| s.id == StepId::DiscoverEndpoints).expect("step");
    assert_eq!(disc.status, StepStatus::Success);
}

#[test]
fn test_discovery_failure_is_only_a_warning() {
    let (mut engine, _) = DiagnosticEngine::new("10.0.0.6", Language::English);
    engine.on_resolved(Ok("10.0.0.6".to_string()), 1);
    // The well-known candidate set is probed; only the second is open.
    let mut probes = 0;
    loop {
        match engine.next_request() {
            DiagRequest::ProbePort { .. } => {
                probes += 1;
                engine.on_port_probed(probes == 2, 1);
            }
            _ => break,
        }
    }
    assert_eq!(probes, 7);
    match engine.next_request() {
        DiagRequest::Discover(url) => assert_eq!(url, "opc.tcp://10.0.0.6:4841"),
        _ => panic!("expected a discovery request"),
    }
    engine.on_discovered(Err("no answer".to_string()), 5);
    assert!(matches!(engine.next_request(), DiagRequest::Finished));
    let result = engine.complete(50);
    assert!(!result.overall_success);
    let disc = result.steps.iter().find(|s| s.id == StepId::DiscoverEndpoints).expect("step");
    assert_eq!(disc.status, StepStatus::Warning);
}

#[test]
fn test_dns_failure_stops_the_pipeline() {
    let (mut engine, _) = DiagnosticEngine::new("no.such.host", Language::English);
    engine.on_resolved(Err("lookup failed".to_string()), 6);
    assert!(matches!(engine.next_request(), DiagRequest::Finished));
    let result = engine.complete(9);
    assert_eq!(result.steps.len(), 2);
    assert_eq!(result.steps[1].id, StepId::ResolveDns);
    assert_eq!(result.steps[1].status, StepStatus::Failed);
    assert!(!result.overall_success);
}

#[test]
fn test_cancel_between_probes() {
    let (mut engine, _) = DiagnosticEngine::new("10.0.0.7", Language::English);
    engine.on_resolved(Ok("10.0.0.7".to_string()), 1);
    engine.on_port_probed(true, 1);
    let steps = engine.cancel(14);
    assert_eq!(steps.len(), 1);
    assert_eq!(steps[0].id, StepId::ScanPorts);
    assert_eq!(steps[0].status, StepStatus::Success);
    assert!(matches!(engine.next_request(), DiagRequest::Finished));
    let result = engine.complete(15);
    assert!(!result.overall_success);
    assert_eq!(result.open_ports.len(), 1);
}

#[test]
fn test_discovery_advances_past_failing_open_ports() {
    // Two open ports; the first open port yields nothing, the second
    // yields endpoints: the run still succeeds with the second port's
    // first endpoint recommended.
    let (mut engine, _) = DiagnosticEngine::new("10.0.0.8", Language::English);
    engine.on_resolved(Ok("10.0.0.8".to_string()), 1);
    let mut probes = 0;
    loop {
        match engine.next_request() {
            DiagRequest::ProbePort { .. } => {
                probes += 1;
                engine.on_port_probed(probes == 2 || probes == 4, 1);
            }
            _ => break,
        }
    }
    match engine.next_request() {
        DiagRequest::Discover(url) => assert_eq!(url, "opc.tcp://10.0.0.8:4841"),
        _ => panic!("expected the first open port's discovery"),
    }
    engine.on_discovered(Ok(Vec::new()), 2);
    match engine.next_request() {
        DiagRequest::Discover(url) => assert_eq!(url, "opc.tcp://10.0.0.8:4843"),
        _ => panic!("expected the next open port's discovery"),
    }
    engine.on_discovered(Ok(vec![endpoint("opc.tcp://10.0.0.8:4843/UA")]), 3);
    let result = engine.complete(40);
    assert!(result.overall_success);
    assert_eq!(result.recommended_url.as_deref(), Some("opc.tcp://10.0.0.8:4843/UA"));
    let disc = result.steps.iter().find(|s| s.id == StepId::DiscoverEndpoints).expect("step");
    assert_eq!(disc.status, StepStatus::Success);
}
