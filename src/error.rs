use vstd::prelude::*;

verus! {

/// The step of device acquisition that failed.
#[derive(Clone, Copy, Debug, PartialEq, Eq, Structural)]
pub enum Stage {
    Instance,
    Surface,
    Adapter,
    Device,
}

/// Why a renderer could not be constructed.
#[derive(Clone, Copy, Debug, PartialEq, Eq, Structural)]
pub enum RendererError {
    /// A step of the instance / surface / adapter / device sequence failed.
    AcquisitionFailed(Stage),
    /// The surface reports no formats, or no composite-alpha modes.
    CapabilityMissing,
    /// The adapter cannot hold an immediate block of the required size.
    ImmediateLimitTooLow,
}

impl RendererError {
    /// A short description of the error, for the host to report.
    pub fn message(&self) -> (r: &'static str) {
        match self {
            RendererError::AcquisitionFailed(Stage::Instance) => "failed to create the graphics instance",
            RendererError::AcquisitionFailed(Stage::Surface) => "failed to create the window surface",
            RendererError::AcquisitionFailed(Stage::Adapter) => "failed to find an adapter compatible with the surface",
            RendererError::AcquisitionFailed(Stage::Device) => "failed to create the device and its queue",
            RendererError::CapabilityMissing => "the surface reports no usable format or alpha mode",
            RendererError::ImmediateLimitTooLow => "the adapter cannot hold the immediate-constant block",
        }
    }
}

} // verus!
