//! A scripted stand-in for the backend.
//!
//! The real backend answers the two negotiation steps at its own
//! discretion, so nothing can be promised about which answers come back.
//! This module runs the same acquisition sequence against a stub whose
//! answers are plain scripted values, and returns a trace of everything the
//! sequence did. The contract of [`acquire_with_stub`] pins that trace down
//! exactly, for every script: which requests were issued and with what
//! policy, which instance was used, which diagnostics were recorded, and
//! how the produced handles relate to one another.

use vstd::prelude::*;

use crate::diagnostics::{
    device_failure_diagnostic, no_adapter_diagnostic, spec_device_failure_diagnostic,
    spec_no_adapter_diagnostic, DiagnosticLog,
};
use crate::error::ContextCreationError;

verus! {

/// How the stub backend answers the two negotiation requests.
pub struct BackendStub {
    /// Identifier of the adapter granted under the selection policy, or
    /// `None` when no adapter satisfies it.
    pub adapter: Option<u64>,
    /// Whether device-and-queue negotiation on the granted adapter succeeds.
    pub device_granted: bool,
    /// The cause the stub reports when it refuses the device request.
    pub denial_cause: String,
}

/// The options of one adapter request, as the pipeline hands them to the
/// backend.
pub struct StubAdapterRequest {
    /// Prefer the highest-performance device.
    pub high_performance: bool,
    /// Whether a software fallback adapter may be returned.
    pub allow_fallback: bool,
    /// The surface the adapter must be compatible with, if the caller
    /// supplied one.
    pub compatible_surface: Option<u64>,
}

/// The plain image of an acquired context: the granted adapter and, for the
/// device and the queue, the adapter each was derived from.
#[derive(PartialEq, Eq, Structural)]
pub struct StubContext {
    /// The adapter the backend granted.
    pub adapter: u64,
    /// The adapter the logical device was opened on.
    pub device_parent: u64,
    /// The adapter whose device owns the command queue.
    pub queue_parent: u64,
}

/// Everything one scripted acquisition run did.
pub struct AcquisitionTrace {
    /// Identifier of the instance used for adapter negotiation.
    pub instance: u64,
    /// Whether a fresh instance was created rather than the caller's reused.
    pub created_instance: bool,
    /// Every adapter request issued, in order.
    pub adapter_requests: Vec<StubAdapterRequest>,
    /// The feature bits of every device request issued, in order.
    pub device_requests: Vec<u64>,
    /// What the acquisition produced.
    pub outcome: Result<StubContext, ContextCreationError>,
}

/// Identifier the stub gives a freshly created instance.
pub open spec fn fresh_instance_id() -> u64 {
    0
}

/// Run the acquisition sequence against the scripted stub.
///
/// The caller's side of the run is as in real acquisition: an optional
/// instance to reuse, an optional surface (by identifier) to constrain
/// selection, and the requested feature bits. The trace shows that the run
/// issues exactly one adapter request — high performance, no fallback,
/// constrained to the surface exactly when one was supplied — on exactly
/// the supplied instance when there is one; issues at most one device
/// request, with the features verbatim, and only once an adapter was
/// granted; maps each refusal to its own error with its own single
/// diagnostic; and on success returns a device and queue derived from
/// exactly the granted adapter.
pub fn acquire_with_stub(
    log: &mut DiagnosticLog,
    stub: BackendStub,
    instance: Option<u64>,
    surface: Option<u64>,
    features: u64,
) -> (t: AcquisitionTrace)
    ensures
        t.adapter_requests@.len() == 1,
        t.adapter_requests@[0].high_performance,
        !t.adapter_requests@[0].allow_fallback,
        t.adapter_requests@[0].compatible_surface == surface,
        instance matches Some(i) ==> t.instance == i && !t.created_instance,
        instance is None ==> t.created_instance && t.instance == fresh_instance_id(),
        stub.adapter is None ==> ({
            &&& t.outcome matches Err(e) && e == ContextCreationError::NoPhysicalComputeDevice
            &&& t.device_requests@.len() == 0
            &&& final(log)@ == old(log)@.push(spec_no_adapter_diagnostic())
        }),
        stub.adapter matches Some(a) ==> ({
            &&& t.device_requests@ == seq![features]
            &&& stub.device_granted ==> ({
                &&& t.outcome matches Ok(c) && c == (StubContext {
                    adapter: a,
                    device_parent: a,
                    queue_parent: a,
                })
                &&& final(log)@ == old(log)@
            })
            &&& !stub.device_granted ==> ({
                &&& t.outcome matches Err(e) && e == ContextCreationError::DeviceOrQueueCreation
                &&& final(log)@ == old(log)@.push(
                    spec_device_failure_diagnostic(stub.denial_cause@),
                )
            })
        }),
{
    let created = instance.is_none();
    let instance_in_use: u64 = match instance {
        Some(i) => i,
        None => 0,
    };
    let mut adapter_requests: Vec<StubAdapterRequest> = Vec::new();
    adapter_requests.push(
        StubAdapterRequest {
            high_performance: true,
            allow_fallback: false,
            compatible_surface: surface,
        },
    );
    let mut device_requests: Vec<u64> = Vec::new();
    let adapter = match stub.adapter {
        Some(a) => a,
        None => {
            log.record(no_adapter_diagnostic());
            return AcquisitionTrace {
                instance: instance_in_use,
                created_instance: created,
                adapter_requests,
                device_requests,
                outcome: Err(ContextCreationError::NoPhysicalComputeDevice),
            };
        },
    };
    device_requests.push(features);
    proof {
        assert(device_requests@ =~= seq![features]);
    }
    if !stub.device_granted {
        let message = device_failure_diagnostic(stub.denial_cause.as_str());
        log.record(message);
        return AcquisitionTrace {
            instance: instance_in_use,
            created_instance: created,
            adapter_requests,
            device_requests,
            outcome: Err(ContextCreationError::DeviceOrQueueCreation),
        };
    }
    AcquisitionTrace {
        instance: instance_in_use,
        created_instance: created,
        adapter_requests,
        device_requests,
        outcome: Ok(StubContext { adapter, device_parent: adapter, queue_parent: adapter }),
    }
}

} // verus!
