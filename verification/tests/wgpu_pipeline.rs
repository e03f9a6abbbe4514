use gpu_context::context::{adapter_request_options, device_request_descriptor, Context};
use gpu_context::diagnostics::DiagnosticLog;
use gpu_context::error::ContextCreationError;

#[test]
fn adapter_options_encode_the_selection_policy() {
    let options = adapter_request_options(None::<&wgpu::Surface>);
    assert_eq!(
        options.power_preference,
        wgpu::PowerPreference::HighPerformance
    );
    assert!(!options.force_fallback_adapter);
    assert!(options.compatible_surface.is_none());
}

#[test]
fn device_descriptor_carries_the_features_verbatim() {
    let features = wgpu::Features::TIMESTAMP_QUERY;
    let descriptor = device_request_descriptor(features);
    assert_eq!(descriptor.features, features);
    assert!(descriptor.label.is_none());
}

#[test]
fn acquisition_on_this_host_either_yields_a_context_or_one_diagnostic() {
    let mut log = DiagnosticLog::new();
    match Context::new(&mut log, None, None, wgpu::Features::empty()) {
        Ok(context) => {
            let _ = context.adapter();
            let _ = context.device();
            let _ = context.queue();
            assert_eq!(log.len(), 0);
        }
        Err(ContextCreationError::NoPhysicalComputeDevice)
        | Err(ContextCreationError::DeviceOrQueueCreation) => {
            assert_eq!(log.len(), 1);
        }
    }
}

#[test]
fn acquisition_reuses_a_supplied_instance() {
    let mut log = DiagnosticLog::new();
    let instance = wgpu::Instance::new(wgpu::InstanceDescriptor::default());
    let result = Context::new(&mut log, Some(instance), None, wgpu::Features::empty());
    if result.is_ok() {
        assert_eq!(log.len(), 0);
    } else {
        assert_eq!(log.len(), 1);
    }
}
