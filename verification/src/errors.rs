//! Errors reported by the runtime.
use vstd::prelude::*;

verus! {

/// Why a runtime request failed.
#[derive(Debug, Clone)]
pub enum RuntimeError {
    ViewNotFound(String),
    ViewAlreadyExists(String),
    GpuNotInitialized,
    GpuInitializationFailed(String),
    SurfaceCreationFailed(String),
    RenderFailed(String),
    InvalidState(String),
}

/// The message that describes an error.
pub open spec fn error_message(e: RuntimeError) -> Seq<char> {
    match e {
        RuntimeError::ViewNotFound(id) => "View not found: "@ + id@,
        RuntimeError::ViewAlreadyExists(id) => "View already exists: "@ + id@,
        RuntimeError::GpuNotInitialized => "GPU not initialized"@,
        RuntimeError::GpuInitializationFailed(msg) => "GPU initialization failed: "@ + msg@,
        RuntimeError::SurfaceCreationFailed(msg) => "Surface creation failed: "@ + msg@,
        RuntimeError::RenderFailed(msg) => "Render failed: "@ + msg@,
        RuntimeError::InvalidState(msg) => "Invalid state: "@ + msg@,
    }
}

fn joined(prefix: &str, rest: &String) -> (r: String)
    ensures
        r@ == prefix@ + rest@,
{
    let mut r = prefix.to_owned();
    r.append(rest.as_str());
    r
}

impl RuntimeError {
    /// The message that describes this error.
    pub fn message(&self) -> (r: String)
        ensures
            r@ == error_message(*self),
    {
        match self {
            RuntimeError::ViewNotFound(id) => joined("View not found: ", id),
            RuntimeError::ViewAlreadyExists(id) => joined("View already exists: ", id),
            RuntimeError::GpuNotInitialized => "GPU not initialized".to_owned(),
            RuntimeError::GpuInitializationFailed(msg) => joined("GPU initialization failed: ", msg),
            RuntimeError::SurfaceCreationFailed(msg) => joined("Surface creation failed: ", msg),
            RuntimeError::RenderFailed(msg) => joined("Render failed: ", msg),
            RuntimeError::InvalidState(msg) => joined("Invalid state: ", msg),
        }
    }
}

} // verus!
