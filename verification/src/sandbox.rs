//! Sandbox lookup for the hypervisor-socket variant: a pod identifier or
//! prefix is matched against the sandboxes under the fixed base directory,
//! and the winner's socket path is built.
//!
//! A caller scans the base directory and hands in the identifiers whose
//! subdirectory holds the hypervisor socket; the selection itself is decided
//! here: an exact match wins, otherwise the prefix must match exactly one
//! candidate, and anything else is reported as not found.

use crate::error::KuasarCtlError;
use crate::resolve::prefix_matches;
use crate::strutil::{join_strings, join_with};
use vstd::prelude::*;
use vstd::string::StringExecFns;

verus! {

/// Base directory holding one subdirectory per sandbox.
pub const SANDBOX_BASE: &'static str = "/run/kuasar-vmm";

/// A resolved sandbox: its full identifier and its hypervisor-socket path.
#[derive(Debug, Clone)]
pub struct SandboxInfo {
    pub pod_id: String,
    pub vsock_socket: String,
}

/// The hypervisor-socket path of a sandbox.
pub open spec fn vsock_path_spec(pod_id: Seq<char>) -> Seq<char> {
    "/run/kuasar-vmm"@ + "/"@ + pod_id + "/task.vsock"@
}

/// The report of a prefix that matched several sandboxes.
pub open spec fn multiple_matches_spec(pod_id: Seq<char>, found: Seq<Seq<char>>) -> Seq<char> {
    pod_id + " (multiple matches: "@ + join_with(found, ", "@) + ")"@
}

/// Builds the hypervisor-socket path of a sandbox.
pub fn vsock_path_for(pod_id: &str) -> (r: String)
    ensures
        r@ == vsock_path_spec(pod_id@),
{
    let mut path = String::new();
    path.append(SANDBOX_BASE);
    path.append("/");
    path.append(pod_id);
    path.append("/task.vsock");
    proof {
        assert(path@ =~= vsock_path_spec(pod_id@));
    }
    path
}

/// Selects the sandbox a pod identifier names, among the candidates whose
/// subdirectory holds the hypervisor socket.  An exact match wins; otherwise
/// a prefix matching exactly one candidate wins; no match, or several, is
/// not found — several name every match in the report.
pub fn find_sandbox(pod_id: &str, candidates: &Vec<String>) -> (r: Result<
    SandboxInfo,
    KuasarCtlError,
>)
    ensures
        ({
            let pods = candidates.deep_view();
            let pre = pod_id@;
            let found = prefix_matches(pods, pre);
            &&& (r is Ok <==> pods.contains(pre) || found.len() == 1)
            &&& (pods.contains(pre) ==> (r matches Ok(info) && info.pod_id@ == pre
                && info.vsock_socket@ == vsock_path_spec(pre)))
            &&& (!pods.contains(pre) && found.len() == 1 ==> (r matches Ok(info)
                && info.pod_id@ == found[0] && info.vsock_socket@ == vsock_path_spec(found[0])))
            &&& (!pods.contains(pre) && found.len() == 0 ==> (r matches Err(e)
                && (e matches KuasarCtlError::SandboxNotFound(m) && m@ == pre)))
            &&& (!pods.contains(pre) && found.len() >= 2 ==> (r matches Err(e)
                && (e matches KuasarCtlError::SandboxNotFound(m) && m@ == multiple_matches_spec(
                pre,
                found,
            ))))
        }),
{
    let ghost pods = candidates.deep_view();
    let ghost pre = pod_id@;
    if let Some(i) = crate::resolve::index_of_eq(candidates, pod_id) {
        proof {
            assert(pods.contains(pre));
        }
        return Ok(
            SandboxInfo { pod_id: String::from_str(pod_id), vsock_socket: vsock_path_for(pod_id) },
        );
    }
    proof {
        assert(!pods.contains(pre)) by {
            if pods.contains(pre) {
                let w = choose|w: int| 0 <= w < pods.len() && pods[w] == pre;
                assert(pods[w] == pre);
            }
        }
    }
    let found = crate::resolve::collect_prefix_matches(candidates, pod_id);
    if found.len() == 0 {
        Err(KuasarCtlError::SandboxNotFound(String::from_str(pod_id)))
    } else if found.len() == 1 {
        let matched = found[0].clone();
        let path = vsock_path_for(matched.as_str());
        Ok(SandboxInfo { pod_id: matched, vsock_socket: path })
    } else {
        let mut message = String::new();
        message.append(pod_id);
        message.append(" (multiple matches: ");
        let joined = join_strings(&found, ", ");
        message.append(joined.as_str());
        message.append(")");
        proof {
            assert(message@ =~= multiple_matches_spec(pre, prefix_matches(pods, pre)));
        }
        Err(KuasarCtlError::SandboxNotFound(message))
    }
}

} // verus!
