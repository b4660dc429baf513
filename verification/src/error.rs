//! Errors that the operations report.

use vstd::prelude::*;

verus! {

/// What a call into the windowing system reported.
#[derive(Clone, Copy, Debug, PartialEq, Eq, Structural)]
pub enum WindowingApiError {
    /// The call failed and gave no further reason.
    Failed,
}

/// Why an operation did not do what it was asked for.
#[derive(Clone, Copy, Debug, PartialEq, Eq)]
pub enum Error {
    /// The driver lacks an extension that the operation needs.
    RequiredExtensionUnavailable,
    /// The driver could not search its pixel formats.
    PixelFormatSelectionFailed(WindowingApiError),
    /// The driver has no pixel format with the requested attributes.
    NoPixelFormatFound,
    /// The driver did not create the context.
    ContextCreationFailed(WindowingApiError),
    /// The context could not be made current, or no longer current.
    MakeCurrentFailed(WindowingApiError),
    /// The surface was created with another context.
    IncompatibleSurface,
    /// The context renders to a target that is not managed here.
    ExternalRenderTarget,
    /// A surface is bound to the context already.
    SurfaceAlreadyBound,
    /// No context is current on this thread.
    NoCurrentContext,
}

} // verus!
