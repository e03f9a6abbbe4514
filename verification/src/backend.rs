//! The boundary to the wgpu backend.
//!
//! Everything the acquisition pipeline needs from wgpu crosses this module.
//! The opaque handle types are declared for the verifier, and each backend
//! call the pipeline makes stands behind one trusted wrapper whose contract
//! claims no more than wgpu's own documentation promises. The two
//! negotiation calls are asynchronous in wgpu; each wrapper drives its
//! future to completion with `pollster::block_on` before returning, so the
//! pipeline above is a plain synchronous sequence.

use vstd::prelude::*;

verus! {

// The four handles the pipeline passes around, and the surface a caller may
// supply: opaque to the verifier, carried through untouched.

#[verifier::external_type_specification]
#[verifier::external_body]
pub struct ExInstance(wgpu::Instance);

#[verifier::external_type_specification]
#[verifier::external_body]
pub struct ExAdapter(wgpu::Adapter);

#[verifier::external_type_specification]
#[verifier::external_body]
pub struct ExDevice(wgpu::Device);

#[verifier::external_type_specification]
#[verifier::external_body]
pub struct ExQueue(wgpu::Queue);

#[verifier::external_type_specification]
#[verifier::external_body]
pub struct ExSurface(wgpu::Surface);

#[verifier::external_type_specification]
#[verifier::external_body]
pub struct ExFeatures(wgpu::Features);

#[verifier::external_type_specification]
#[verifier::external_body]
pub struct ExLimits(wgpu::Limits);

#[verifier::external_type_specification]
#[verifier::external_body]
pub struct ExRequestDeviceError(wgpu::RequestDeviceError);

// The adapter-request options and the device descriptor have public fields;
// they are declared with those fields visible, so the pipeline builds them
// in verified code and their contents stand in contracts.

#[verifier::external_type_specification]
pub struct ExPowerPreference(wgpu::PowerPreference);

#[verifier::external_type_specification]
#[verifier::reject_recursive_types(S)]
pub struct ExRequestAdapterOptionsBase<S>(wgpu::RequestAdapterOptionsBase<S>);

#[verifier::external_type_specification]
#[verifier::reject_recursive_types(L)]
pub struct ExDeviceDescriptor<L>(wgpu_types::DeviceDescriptor<L>);

/// Relies on wgpu::Instance::new with the default instance descriptor,
/// which enumerates every backend the host supports and uses the default
/// shader-compiler choice.
#[verifier::external_body]
pub(crate) fn fresh_instance() -> wgpu::Instance {
    wgpu::Instance::new(wgpu::InstanceDescriptor::default())
}

/// Relies on wgpu::Instance::request_adapter, driven to completion by
/// pollster::block_on: returns an adapter satisfying every hard constraint
/// in `options`, or `None` when no adapter does. Which of several eligible
/// adapters comes back is the backend's choice, so nothing is promised of
/// the result.
#[verifier::external_body]
pub(crate) fn request_adapter<'a>(
    instance: &wgpu::Instance,
    options: &wgpu::RequestAdapterOptionsBase<&'a wgpu::Surface>,
) -> Option<wgpu::Adapter> {
    pollster::block_on(instance.request_adapter(options))
}

/// Relies on wgpu::Adapter::request_device, driven to completion by
/// pollster::block_on: opens a logical device on `adapter` and that device's
/// command queue as described by `desc`, or reports the backend's refusal.
/// No API trace is requested. Whether the backend grants the request depends
/// on the hardware, so nothing is promised of the result.
#[verifier::external_body]
pub(crate) fn request_device<'a>(
    adapter: &wgpu::Adapter,
    desc: &wgpu_types::DeviceDescriptor<Option<&'a str>>,
) -> Result<(wgpu::Device, wgpu::Queue), wgpu::RequestDeviceError> {
    pollster::block_on(adapter.request_device(desc, None))
}

/// Relies on wgpu::Limits::default: the backend's default resource-limits
/// profile, the platform-appropriate request on native targets.
#[verifier::external_body]
pub(crate) fn default_limits() -> wgpu::Limits {
    wgpu::Limits::default()
}

/// Relies on the std Display implementation of wgpu::RequestDeviceError to
/// render the backend-reported cause of a device-creation failure.
#[verifier::external_body]
pub(crate) fn describe_request_device_error(error: &wgpu::RequestDeviceError) -> String {
    format!("{error}")
}

} // verus!
