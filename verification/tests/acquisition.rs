use gpu_context::diagnostics::{device_failure_diagnostic, no_adapter_diagnostic, DiagnosticLog};
use gpu_context::error::ContextCreationError;
use gpu_context::stub::{acquire_with_stub, BackendStub};

fn empty_log() -> DiagnosticLog {
    let log = DiagnosticLog::new();
    assert_eq!(log.len(), 0);
    log
}

#[test]
fn no_adapter_fails_with_no_physical_compute_device() {
    let mut log = empty_log();
    let stub = BackendStub {
        adapter: None,
        device_granted: true,
        denial_cause: String::new(),
    };
    let trace = acquire_with_stub(&mut log, stub, None, None, 0);
    assert!(matches!(
        trace.outcome,
        Err(ContextCreationError::NoPhysicalComputeDevice)
    ));
    assert_eq!(trace.adapter_requests.len(), 1);
    assert_eq!(trace.device_requests.len(), 0);
    assert_eq!(log.len(), 1);
    assert_eq!(log.entry(0).as_str(), "Failed to get a compute device.");
}

#[test]
fn device_denial_fails_with_device_or_queue_creation() {
    let mut log = empty_log();
    let stub = BackendStub {
        adapter: Some(7),
        device_granted: false,
        denial_cause: String::from("stub refusal"),
    };
    let trace = acquire_with_stub(&mut log, stub, None, None, 3);
    assert!(matches!(
        trace.outcome,
        Err(ContextCreationError::DeviceOrQueueCreation)
    ));
    assert_eq!(trace.adapter_requests.len(), 1);
    assert_eq!(trace.device_requests, vec![3]);
    assert_eq!(log.len(), 1);
    assert_eq!(
        log.entry(0).as_str(),
        "Failed to create logical compute device and queue: stub refusal."
    );
}

#[test]
fn failure_diagnostics_are_distinct() {
    let mut no_adapter_log = empty_log();
    let no_adapter = BackendStub {
        adapter: None,
        device_granted: true,
        denial_cause: String::new(),
    };
    acquire_with_stub(&mut no_adapter_log, no_adapter, None, None, 0);

    let mut denial_log = empty_log();
    let denial = BackendStub {
        adapter: Some(1),
        device_granted: false,
        denial_cause: String::new(),
    };
    acquire_with_stub(&mut denial_log, denial, None, None, 0);

    assert_eq!(no_adapter_log.len(), 1);
    assert_eq!(denial_log.len(), 1);
    assert_ne!(no_adapter_log.entry(0), denial_log.entry(0));
}

#[test]
fn success_returns_handles_derived_from_the_granted_adapter() {
    let mut log = empty_log();
    let stub = BackendStub {
        adapter: Some(7),
        device_granted: true,
        denial_cause: String::new(),
    };
    let trace = acquire_with_stub(&mut log, stub, None, None, 5);
    let context = trace.outcome.unwrap();
    assert_eq!(context.adapter, 7);
    assert_eq!(context.device_parent, 7);
    assert_eq!(context.queue_parent, 7);
    assert_eq!(log.len(), 0);
}

#[test]
fn features_are_requested_verbatim() {
    let mut log = empty_log();
    let stub = BackendStub {
        adapter: Some(2),
        device_granted: true,
        denial_cause: String::new(),
    };
    let trace = acquire_with_stub(&mut log, stub, None, None, 0xF00D);
    assert_eq!(trace.device_requests, vec![0xF00D]);
}

#[test]
fn supplied_instance_is_reused() {
    let mut log = empty_log();
    let stub = BackendStub {
        adapter: Some(1),
        device_granted: true,
        denial_cause: String::new(),
    };
    let trace = acquire_with_stub(&mut log, stub, Some(42), None, 0);
    assert_eq!(trace.instance, 42);
    assert!(!trace.created_instance);
}

#[test]
fn absent_instance_is_created_fresh() {
    let mut log = empty_log();
    let stub = BackendStub {
        adapter: Some(1),
        device_granted: true,
        denial_cause: String::new(),
    };
    let trace = acquire_with_stub(&mut log, stub, None, None, 0);
    assert!(trace.created_instance);
}

#[test]
fn supplied_surface_constrains_the_adapter_request() {
    let mut log = empty_log();
    let stub = BackendStub {
        adapter: Some(1),
        device_granted: true,
        denial_cause: String::new(),
    };
    let trace = acquire_with_stub(&mut log, stub, None, Some(5), 0);
    assert_eq!(trace.adapter_requests.len(), 1);
    assert_eq!(trace.adapter_requests[0].compatible_surface, Some(5));
    assert!(trace.adapter_requests[0].high_performance);
    assert!(!trace.adapter_requests[0].allow_fallback);
}

#[test]
fn absent_surface_leaves_the_adapter_request_unconstrained() {
    let mut log = empty_log();
    let stub = BackendStub {
        adapter: Some(1),
        device_granted: true,
        denial_cause: String::new(),
    };
    let trace = acquire_with_stub(&mut log, stub, None, None, 0);
    assert_eq!(trace.adapter_requests[0].compatible_surface, None);
}

#[test]
fn each_request_is_issued_at_most_once() {
    for adapter in [None, Some(9)] {
        for device_granted in [false, true] {
            let mut log = empty_log();
            let stub = BackendStub {
                adapter,
                device_granted,
                denial_cause: String::new(),
            };
            let trace = acquire_with_stub(&mut log, stub, None, None, 0);
            assert_eq!(trace.adapter_requests.len(), 1);
            assert!(trace.device_requests.len() <= 1);
            if adapter.is_none() {
                assert_eq!(trace.device_requests.len(), 0);
            }
        }
    }
}

#[test]
fn diagnostic_messages_are_built_exactly() {
    assert_eq!(no_adapter_diagnostic(), "Failed to get a compute device.");
    assert_eq!(
        device_failure_diagnostic("backend said no"),
        "Failed to create logical compute device and queue: backend said no."
    );
}

#[test]
fn diagnostic_log_appends_in_order() {
    let mut log = empty_log();
    log.record(String::from("first"));
    log.record(String::from("second"));
    assert_eq!(log.len(), 2);
    assert_eq!(log.entry(0).as_str(), "first");
    assert_eq!(log.entry(1).as_str(), "second");
}
