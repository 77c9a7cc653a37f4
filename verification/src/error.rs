//! The failures the core distinguishes.

use vstd::prelude::*;

verus! {

/// Everything that can go wrong inside the core, each failure carrying the
/// collaborator's diagnostic text verbatim where there is one, so that the
/// surface can show it unchanged.
#[derive(Debug, Clone, PartialEq, Eq)]
pub enum CoreError {
    /// The watched source file could not be read; the message is the
    /// reader's own description.
    FileRead(String),
    /// A shader stage failed to compile; the message is the driver's
    /// diagnostic, unmodified.
    ShaderCompile(String),
    /// The program failed to link; the message is the driver's diagnostic,
    /// unmodified.
    ShaderLink(String),
    /// A GPU object could not be created.
    GpuResourceAllocation(String),
    /// An off-screen render target was left incomplete by the driver.
    FramebufferIncomplete,
    /// The external video encoder is not present, judged by the one
    /// version-query probe of the session.
    EncoderUnavailable,
    /// The external video encoder could not be started.
    EncoderLaunch(String),
    /// Streaming a frame to the external video encoder failed.
    EncoderWrite(String),
}

impl CoreError {
    /// The diagnostic text carried by the failure, verbatim, where the
    /// collaborator supplied one.
    pub fn detail(&self) -> (r: Option<&String>)
        ensures
            match self {
                CoreError::FileRead(m) => r == Some(m),
                CoreError::ShaderCompile(m) => r == Some(m),
                CoreError::ShaderLink(m) => r == Some(m),
                CoreError::GpuResourceAllocation(m) => r == Some(m),
                CoreError::EncoderLaunch(m) => r == Some(m),
                CoreError::EncoderWrite(m) => r == Some(m),
                CoreError::FramebufferIncomplete => r is None,
                CoreError::EncoderUnavailable => r is None,
            },
    {
        match self {
            CoreError::FileRead(m) => Some(m),
            CoreError::ShaderCompile(m) => Some(m),
            CoreError::ShaderLink(m) => Some(m),
            CoreError::GpuResourceAllocation(m) => Some(m),
            CoreError::EncoderLaunch(m) => Some(m),
            CoreError::EncoderWrite(m) => Some(m),
            CoreError::FramebufferIncomplete => None,
            CoreError::EncoderUnavailable => None,
        }
    }
}

} // verus!
