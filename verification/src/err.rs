use vstd::prelude::*;
use vstd::string::StringExecFns;

verus! {

/// Errors of the GPU context and of its kernels; each carries the message of the
/// driver call that failed.
#[derive(Debug)]
pub enum D3D12KernelError {
    DeviceCreation(String),
    BufferError(String),
    PipelineCreation(String),
    ShaderCompilation(String),
    Dispatch(String),
    DataTransfer(String),
}

impl D3D12KernelError {
    /// The text that the error displays: a prefix naming the stage, then the message.
    pub open spec fn spec_message(&self) -> Seq<char> {
        match self {
            D3D12KernelError::DeviceCreation(s) => "Device creation failed: "@ + s@,
            D3D12KernelError::BufferError(s) => "Buffer operation failed: "@ + s@,
            D3D12KernelError::PipelineCreation(s) => "Pipeline creation failed: "@ + s@,
            D3D12KernelError::ShaderCompilation(s) => "Shader compilation failed: "@ + s@,
            D3D12KernelError::Dispatch(s) => "Dispatch failed: "@ + s@,
            D3D12KernelError::DataTransfer(s) => "Data transfer failed: "@ + s@,
        }
    }

    /// The text that the error displays.
    pub fn message(&self) -> (r: String)
        ensures
            r@ == self.spec_message(),
    {
        match self {
            D3D12KernelError::DeviceCreation(s) => String::from_str("Device creation failed: ").concat(
                s.as_str(),
            ),
            D3D12KernelError::BufferError(s) => String::from_str("Buffer operation failed: ").concat(
                s.as_str(),
            ),
            D3D12KernelError::PipelineCreation(s) => String::from_str(
                "Pipeline creation failed: ",
            ).concat(s.as_str()),
            D3D12KernelError::ShaderCompilation(s) => String::from_str(
                "Shader compilation failed: ",
            ).concat(s.as_str()),
            D3D12KernelError::Dispatch(s) => String::from_str("Dispatch failed: ").concat(s.as_str()),
            D3D12KernelError::DataTransfer(s) => String::from_str("Data transfer failed: ").concat(
                s.as_str(),
            ),
        }
    }
}

/// Errors of the storage operations of the backend.
#[derive(Debug)]
pub enum D3D12Error {
    Message(String),
}

impl D3D12Error {
    /// The text of the error.
    pub open spec fn spec_text(&self) -> Seq<char> {
        match self {
            D3D12Error::Message(s) => s@,
        }
    }

    /// The text of the error.
    pub fn text(&self) -> (r: &str)
        ensures
            r@ == self.spec_text(),
    {
        match self {
            D3D12Error::Message(s) => s.as_str(),
        }
    }
}

impl From<String> for D3D12Error {
    fn from(e: String) -> (r: D3D12Error) {
        D3D12Error::Message(e)
    }
}

impl vstd::std_specs::convert::FromSpecImpl<String> for D3D12Error {
    open spec fn obeys_from_spec() -> bool {
        true
    }

    open spec fn from_spec(e: String) -> D3D12Error {
        D3D12Error::Message(e)
    }
}

/// Turns an error of the GPU context into a storage error that carries its displayed text.
pub fn d3d12_err(e: &D3D12KernelError) -> (r: D3D12Error)
    ensures
        r.spec_text() == e.spec_message(),
{
    D3D12Error::Message(e.message())
}

} // verus!
