//! The graphics compute context and the pipeline that acquires it.

use vstd::prelude::*;

use crate::backend;
use crate::diagnostics::{
    device_failure_diagnostic, no_adapter_diagnostic, spec_device_failure_diagnostic,
    spec_no_adapter_diagnostic, DiagnosticLog,
};
use crate::error::ContextCreationError;

verus! {

/// Graphics compute context.
///
/// Owns the three handles of one successful acquisition: the selected
/// physical adapter, the logical device the pipeline opened on exactly that
/// adapter, and that device's command queue. The fields never change after
/// construction and are handed out only by reference, so no mismatched
/// triple and no partially built context is ever observable.
pub struct Context {
    /// Physical device used for computing.
    adapter: wgpu::Adapter,
    /// Logical device used for computing.
    device: wgpu::Device,
    /// Compute command queue.
    queue: wgpu::Queue,
}

impl Context {
    /// The adapter handle the context owns.
    pub closed spec fn spec_adapter(&self) -> wgpu::Adapter {
        self.adapter
    }

    /// The device handle the context owns.
    pub closed spec fn spec_device(&self) -> wgpu::Device {
        self.device
    }

    /// The queue handle the context owns.
    pub closed spec fn spec_queue(&self) -> wgpu::Queue {
        self.queue
    }

    /// Get the active physical compute device.
    pub fn adapter(&self) -> (r: &wgpu::Adapter)
        ensures
            *r == self.spec_adapter(),
    {
        &self.adapter
    }

    /// Get the active compute device.
    pub fn device(&self) -> (r: &wgpu::Device)
        ensures
            *r == self.spec_device(),
    {
        &self.device
    }

    /// Get the command queue for the active device.
    pub fn queue(&self) -> (r: &wgpu::Queue)
        ensures
            *r == self.spec_queue(),
    {
        &self.queue
    }

    /// Create a new graphics compute context.
    ///
    /// Optionally pass a previously created backend instance, which is then
    /// the one used for adapter negotiation; otherwise a fresh instance
    /// enumerating every available backend is created. Optionally pass a
    /// compatible surface for obtaining a device capable of both computing
    /// and rendering workloads. The requested `features` go into device
    /// creation verbatim; no negotiation or fallback is attempted.
    ///
    /// The call blocks until both negotiation steps have fully completed.
    /// On failure no context exists, the error names which step failed, and
    /// exactly one diagnostic is recorded in `log`; success records none.
    pub fn new(
        log: &mut DiagnosticLog,
        instance: Option<wgpu::Instance>,
        surface: Option<&wgpu::Surface>,
        features: wgpu::Features,
    ) -> (r: Result<Context, ContextCreationError>)
        ensures
            r is Ok ==> final(log)@ == old(log)@,
            r matches Err(e) ==> ({
                &&& final(log)@.len() == old(log)@.len() + 1
                &&& e == ContextCreationError::NoPhysicalComputeDevice
                    ==> final(log)@ == old(log)@.push(spec_no_adapter_diagnostic())
                &&& e == ContextCreationError::DeviceOrQueueCreation ==> exists|cause: Seq<char>|
                    final(log)@ == old(log)@.push(spec_device_failure_diagnostic(cause))
            }),
    {
        let instance_in_use = resolve_instance(instance);
        let options = adapter_request_options(surface);
        let adapter = match backend::request_adapter(&instance_in_use, &options) {
            Some(a) => a,
            None => {
                log.record(no_adapter_diagnostic());
                return Err(ContextCreationError::NoPhysicalComputeDevice);
            },
        };
        let descriptor = device_request_descriptor(features);
        let (device, queue) = match backend::request_device(&adapter, &descriptor) {
            Ok(pair) => pair,
            Err(refusal) => {
                let cause = backend::describe_request_device_error(&refusal);
                let message = device_failure_diagnostic(cause.as_str());
                log.record(message);
                return Err(ContextCreationError::DeviceOrQueueCreation);
            },
        };
        Ok(Context { adapter, device, queue })
    }
}

/// Use the caller's backend instance when one was supplied — exactly that
/// one, never a silently created replacement — and create a fresh instance
/// enumerating every available backend otherwise.
fn resolve_instance(supplied: Option<wgpu::Instance>) -> (r: wgpu::Instance)
    ensures
        supplied matches Some(i) ==> r == i,
{
    match supplied {
        Some(i) => i,
        None => backend::fresh_instance(),
    }
}

/// Options for the one adapter request: prefer the highest-performance
/// device, never accept a software fallback, and require compatibility with
/// the caller's surface exactly when one was supplied.
pub fn adapter_request_options<'a>(surface: Option<&'a wgpu::Surface>) -> (r:
    wgpu::RequestAdapterOptionsBase<&'a wgpu::Surface>)
    ensures
        r.power_preference == wgpu::PowerPreference::HighPerformance,
        r.force_fallback_adapter == false,
        r.compatible_surface == surface,
{
    wgpu::RequestAdapterOptionsBase {
        power_preference: wgpu::PowerPreference::HighPerformance,
        force_fallback_adapter: false,
        compatible_surface: surface,
    }
}

/// Descriptor for the one device request: the caller's feature set verbatim,
/// the backend's default resource-limits profile, and no debug label.
pub fn device_request_descriptor<'a>(features: wgpu::Features) -> (r: wgpu_types::DeviceDescriptor<
    Option<&'a str>,
>)
    ensures
        r.features == features,
        r.label is None,
{
    wgpu_types::DeviceDescriptor {
        label: None,
        features: features,
        limits: backend::default_limits(),
    }
}

} // verus!
