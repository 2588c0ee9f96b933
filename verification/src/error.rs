//! The client's error taxonomy and its exit codes: resolution failures,
//! connection and handshake failures, and local I/O failures each map to a
//! distinct non-zero exit code.

use crate::interactive::error_message_spec;
use vstd::prelude::*;
use vstd::string::StringExecFns;

verus! {

/// Everything the client can fail with; each variant carries the account
/// shown to the user.
#[derive(Debug)]
pub enum KuasarCtlError {
    SandboxNotFound(String),
    VsockConnectionFailed(String),
    IoError(String),
    WriteOutputFailed(String),
    EpollError(String),
}

/// The message each failure renders to.
pub open spec fn kuasar_error_message_spec(e: KuasarCtlError) -> Seq<char> {
    match e {
        KuasarCtlError::SandboxNotFound(s) => "sandbox '"@ + s@ + "' not found"@,
        KuasarCtlError::VsockConnectionFailed(s) => "vsock connection failed: "@ + s@,
        KuasarCtlError::IoError(s) => "IO error: "@ + s@,
        KuasarCtlError::WriteOutputFailed(s) => "write output file failed: "@ + s@,
        KuasarCtlError::EpollError(s) => "epoll error: "@ + s@,
    }
}

impl KuasarCtlError {
    /// The process exit code reported for this failure; each kind gets its
    /// own non-zero code.
    pub fn exit_code(&self) -> (r: i32)
        ensures
            r == (match self {
                KuasarCtlError::SandboxNotFound(_) => 1int,
                KuasarCtlError::VsockConnectionFailed(_) => 3int,
                KuasarCtlError::IoError(_) => 126int,
                KuasarCtlError::WriteOutputFailed(_) => 127int,
                KuasarCtlError::EpollError(_) => 128int,
            }),
    {
        match self {
            KuasarCtlError::SandboxNotFound(_) => 1,
            KuasarCtlError::VsockConnectionFailed(_) => 3,
            KuasarCtlError::IoError(_) => 126,
            KuasarCtlError::WriteOutputFailed(_) => 127,
            KuasarCtlError::EpollError(_) => 128,
        }
    }

    /// Renders the failure for the user.
    pub fn message(&self) -> (r: String)
        ensures
            r@ == kuasar_error_message_spec(*self),
    {
        let mut out = String::new();
        match self {
            KuasarCtlError::SandboxNotFound(s) => {
                out.append("sandbox '");
                out.append(s.as_str());
                out.append("' not found");
            },
            KuasarCtlError::VsockConnectionFailed(s) => {
                out.append("vsock connection failed: ");
                out.append(s.as_str());
            },
            KuasarCtlError::IoError(s) => {
                out.append("IO error: ");
                out.append(s.as_str());
            },
            KuasarCtlError::WriteOutputFailed(s) => {
                out.append("write output file failed: ");
                out.append(s.as_str());
            },
            KuasarCtlError::EpollError(s) => {
                out.append("epoll error: ");
                out.append(s.as_str());
            },
        }
        proof {
            assert(out@ =~= kuasar_error_message_spec(*self));
        }
        out
    }

    /// Wraps a failure of the event-multiplexed session.
    pub fn from_interactive(err: &crate::interactive::Error) -> (r: KuasarCtlError)
        ensures
            r matches KuasarCtlError::EpollError(m) && m@ == error_message_spec(*err),
    {
        KuasarCtlError::EpollError(err.message())
    }
}

} // verus!
