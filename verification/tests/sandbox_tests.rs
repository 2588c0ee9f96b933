//! Sandbox lookup of the hypervisor-socket variant.

use kuasarctl::error::KuasarCtlError;
use kuasarctl::sandbox::{find_sandbox, vsock_path_for, SandboxInfo};
use kuasarctl::strutil::str_starts_with;

fn candidates(names: &[&str]) -> Vec<String> {
    names.iter().map(|n| n.to_string()).collect()
}

#[test]
fn test_prefix_matching_logic() {
    let test_pods = vec!["pod-abc-123", "pod-abc-456", "pod-xyz-789"];

    let prefix = "pod-xyz";
    let matches: Vec<&str> = test_pods
        .iter()
        .filter(|p| str_starts_with(p, prefix))
        .copied()
        .collect();
    assert_eq!(matches, vec!["pod-xyz-789"]);

    let prefix = "pod-abc";
    let matches: Vec<&str> = test_pods
        .iter()
        .filter(|p| str_starts_with(p, prefix))
        .copied()
        .collect();
    assert_eq!(matches.len(), 2);

    let prefix = "pod-notfound";
    let matches: Vec<&str> = test_pods
        .iter()
        .filter(|p| str_starts_with(p, prefix))
        .copied()
        .collect();
    assert!(matches.is_empty());
}

#[test]
fn test_sandbox_info_creation() {
    let info = SandboxInfo {
        pod_id: "test-pod".to_string(),
        vsock_socket: "/run/kuasar-vmm/test-pod/task.vsock".to_string(),
    };
    assert_eq!(info.pod_id, "test-pod");
    assert_eq!(info.vsock_socket, "/run/kuasar-vmm/test-pod/task.vsock");
}

#[test]
fn test_vsock_path_layout() {
    assert_eq!(vsock_path_for("abc"), "/run/kuasar-vmm/abc/task.vsock");
}

#[test]
fn test_find_sandbox_exact_match() {
    let pods = candidates(&["pod-abc-123", "pod-abc-456"]);
    let info = find_sandbox("pod-abc-123", &pods).unwrap();
    assert_eq!(info.pod_id, "pod-abc-123");
    assert_eq!(info.vsock_socket, "/run/kuasar-vmm/pod-abc-123/task.vsock");
}

#[test]
fn test_find_sandbox_unique_prefix() {
    let pods = candidates(&["pod-abc-123", "pod-xyz-789"]);
    let info = find_sandbox("pod-xyz", &pods).unwrap();
    assert_eq!(info.pod_id, "pod-xyz-789");
    assert_eq!(info.vsock_socket, "/run/kuasar-vmm/pod-xyz-789/task.vsock");
}

#[test]
fn test_find_sandbox_no_match() {
    let pods = candidates(&["pod-abc-123"]);
    let err = find_sandbox("missing", &pods).unwrap_err();
    match err {
        KuasarCtlError::SandboxNotFound(id) => assert_eq!(id, "missing"),
        _ => panic!("expected a sandbox-not-found failure"),
    }
}

#[test]
fn test_find_sandbox_multiple_matches() {
    let pods = candidates(&["pod-abc-123", "pod-abc-456"]);
    let err = find_sandbox("pod-abc", &pods).unwrap_err();
    match err {
        KuasarCtlError::SandboxNotFound(report) => {
            assert_eq!(report, "pod-abc (multiple matches: pod-abc-123, pod-abc-456)");
        }
        _ => panic!("expected a sandbox-not-found failure"),
    }
}
