//! The failures the initialization sequence distinguishes.
use vstd::prelude::*;
use crate::preset::Guid;

verus! {

/// One of the three driver modules the pipeline needs.
#[derive(Clone, Copy, Debug, PartialEq, Eq, Structural)]
pub enum DriverModule {
    Compute,
    Capture,
    Encode,
}

/// Which driver API reported a failure.
#[derive(Clone, Copy, Debug, PartialEq, Eq, Structural)]
pub enum Domain {
    Compute,
    Capture,
    Encode,
}

/// The sub-step of compute-context setup that failed.
#[derive(Clone, Copy, Debug, PartialEq, Eq, Structural)]
pub enum ComputeStep {
    Init,
    DeviceGet,
    ContextCreate,
}

/// What the user is told when the hardware or driver lacks capture support.
pub const REMEDIATION_HINT: &'static str =
    "Your hardware does not support screen capture or the driver is unpatched. Ensure you have a supported GPU; on a consumer GPU apply the capture patch from https://github.com/keylase/nvidia-patch (patch-fbc.sh).";

/// Why initialization stopped. Every variant is fatal: nothing is retried.
#[derive(Clone, Debug)]
pub enum PipelineError {
    /// A driver module could not be resolved.
    ModuleLoad { module: DriverModule },
    /// Compute-context setup failed at `step` with the driver's status.
    DriverInit { step: ComputeStep, status: u32 },
    /// Context creation reported success but handed back a null context.
    InvalidContext,
    /// The GPU or driver lacks capture support; the user can act on this.
    UnsupportedHardware { domain: Domain, status: u32, last_error: Option<String> },
    /// Any other non-success status, with the driver's diagnostic string
    /// where it gave one.
    Driver { domain: Domain, status: u32, last_error: Option<String> },
    /// The driver reports that no capture session can be created now.
    CaptureUnavailable,
    /// The installed driver does not offer the requested codec.
    ConfigurationUnsupported { codec: Guid },
    /// An event arrived that does not answer the pending request.
    UnexpectedEvent,
}

impl PipelineError {
    /// Whether this failure comes with a hint the user can act on.
    pub open spec fn has_remediation(&self) -> bool {
        self is UnsupportedHardware
    }

    /// A hint to show the user before giving up, for the failures where
    /// the user can do something about it.
    pub fn remediation_hint(&self) -> (r: Option<&'static str>)
        ensures
            r.is_some() == self.has_remediation(),
            r matches Some(text) ==> text@ == REMEDIATION_HINT@,
    {
        match self {
            PipelineError::UnsupportedHardware { .. } => Some(REMEDIATION_HINT),
            _ => None,
        }
    }
}

} // verus!
