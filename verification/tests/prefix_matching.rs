//! Prefix-matching behaviour of the pod listing and resolver.

use kuasarctl::resolve::{list_available_pods, resolve_pod_id, PodEntry, ResolveError};

const DIR: &str = "/run/kuasar";

fn entries_with_sockets(names: &[&str]) -> Vec<PodEntry> {
    names
        .iter()
        .map(|n| PodEntry { name: n.to_string(), has_socket: true })
        .collect()
}

fn pods(names: &[&str]) -> Vec<String> {
    names.iter().map(|n| n.to_string()).collect()
}

fn error_message(err: ResolveError) -> String {
    err.message().to_string()
}

#[test]
fn test_list_available_pods_empty_directory() {
    let pods = list_available_pods(true, &Vec::new());
    assert_eq!(pods.len(), 0);
}

#[test]
fn test_list_available_pods_with_valid_sockets() {
    let entries = entries_with_sockets(&["pod-001", "pod-002", "pod-abc-123"]);
    let pods = list_available_pods(true, &entries);
    assert_eq!(pods.len(), 3);
    assert!(pods.contains(&"pod-001".to_string()));
    assert!(pods.contains(&"pod-002".to_string()));
    assert!(pods.contains(&"pod-abc-123".to_string()));
}

#[test]
fn test_list_available_pods_ignores_dirs_without_socket() {
    let entries = vec![
        PodEntry { name: "pod-001".to_string(), has_socket: false },
        PodEntry { name: "pod-002".to_string(), has_socket: false },
    ];
    let pods = list_available_pods(true, &entries);
    assert_eq!(pods.len(), 0);
}

#[test]
fn test_list_available_pods_sorted() {
    let entries = entries_with_sockets(&["pod-003", "pod-001", "pod-002"]);
    let pods = list_available_pods(true, &entries);
    assert_eq!(pods, vec!["pod-001", "pod-002", "pod-003"]);
}

#[test]
fn test_resolve_pod_id_exact_match() {
    let available = pods(&["pod-abc-123"]);
    let resolved = resolve_pod_id(DIR, "pod-abc-123", &available);
    assert!(resolved.is_ok());
    assert_eq!(resolved.unwrap(), "pod-abc-123");
}

#[test]
fn test_resolve_pod_id_unique_prefix() {
    let available = pods(&["pod-abc-123", "pod-xyz-789", "pod-def-456"]);
    let resolved = resolve_pod_id(DIR, "pod-abc", &available);
    assert!(resolved.is_ok());
    assert_eq!(resolved.unwrap(), "pod-abc-123");
}

#[test]
fn test_resolve_pod_id_multiple_matches_error() {
    let available = pods(&["pod-abc-123", "pod-abc-456"]);
    let resolved = resolve_pod_id(DIR, "pod-abc", &available);
    assert!(resolved.is_err());
    let error_msg = error_message(resolved.unwrap_err());
    assert!(error_msg.contains("matches multiple pods"));
    assert!(error_msg.contains("pod-abc-123"));
    assert!(error_msg.contains("pod-abc-456"));
}

#[test]
fn test_resolve_pod_id_no_match_error() {
    let available = pods(&["pod-abc-123"]);
    let resolved = resolve_pod_id(DIR, "pod-xyz", &available);
    assert!(resolved.is_err());
    let error_msg = error_message(resolved.unwrap_err());
    assert!(error_msg.contains("No pod found with prefix"));
    assert!(error_msg.contains("pod-abc-123"));
}

#[test]
fn test_resolve_pod_id_empty_directory_error() {
    let resolved = resolve_pod_id(DIR, "pod-123", &Vec::new());
    assert!(resolved.is_err());
    let error_msg = error_message(resolved.unwrap_err());
    assert!(error_msg.contains("No pods found"));
}

#[test]
fn test_resolve_pod_id_single_character_prefix() {
    let available = pods(&["abc-123", "xyz-789"]);
    let resolved = resolve_pod_id(DIR, "a", &available);
    assert!(resolved.is_ok());
    assert_eq!(resolved.unwrap(), "abc-123");
}

#[test]
fn test_resolve_pod_id_numeric_prefix() {
    let available = pods(&["12345", "67890", "11111"]);
    let resolved = resolve_pod_id(DIR, "1", &available);
    assert!(resolved.is_err());
    let error_msg = error_message(resolved.unwrap_err());
    assert!(error_msg.contains("matches multiple pods"));

    let resolved = resolve_pod_id(DIR, "12", &available);
    assert!(resolved.is_ok());
    assert_eq!(resolved.unwrap(), "12345");
}

#[test]
fn test_resolve_pod_id_case_sensitive() {
    let available = pods(&["Pod-ABC", "pod-abc", "POD-abc"]);
    let resolved = resolve_pod_id(DIR, "Pod", &available);
    assert!(resolved.is_ok());
    assert_eq!(resolved.unwrap(), "Pod-ABC");

    let resolved = resolve_pod_id(DIR, "pod", &available);
    assert!(resolved.is_ok());
    assert_eq!(resolved.unwrap(), "pod-abc");

    let resolved = resolve_pod_id(DIR, "POD", &available);
    assert!(resolved.is_ok());
    assert_eq!(resolved.unwrap(), "POD-abc");
}

#[test]
fn test_resolution_scenario_three_pods() {
    let entries = entries_with_sockets(&["pod-001", "pod-002", "pod-abc-123"]);
    let available = list_available_pods(true, &entries);
    assert_eq!(available, vec!["pod-001", "pod-002", "pod-abc-123"]);

    let resolved = resolve_pod_id(DIR, "pod-abc", &available);
    assert_eq!(resolved.unwrap(), "pod-abc-123");

    let ambiguous = resolve_pod_id(DIR, "pod", &available);
    match ambiguous {
        Err(ResolveError::AmbiguousPrefix { matches, message }) => {
            assert_eq!(matches, vec!["pod-001", "pod-002", "pod-abc-123"]);
            assert!(message.contains("pod-001"));
            assert!(message.contains("pod-002"));
            assert!(message.contains("pod-abc-123"));
        }
        _ => panic!("expected an ambiguous-prefix failure"),
    }

    let missing = resolve_pod_id(DIR, "zzz", &available);
    assert!(matches!(missing, Err(ResolveError::NotFound { .. })));
}

#[test]
fn test_not_found_message_enumerates_pods() {
    let available = pods(&["pod-a", "pod-b"]);
    let err = resolve_pod_id(DIR, "qqq", &available).unwrap_err();
    let msg = error_message(err);
    assert_eq!(
        msg,
        "No pod found with prefix \"qqq\". Available pods:\n  pod-a\n  pod-b"
    );
}

#[test]
fn test_exact_match_wins_over_prefix() {
    let available = pods(&["pod-1", "pod-12", "pod-123"]);
    let resolved = resolve_pod_id(DIR, "pod-1", &available);
    assert_eq!(resolved.unwrap(), "pod-1");
}

#[test]
fn test_missing_base_directory_lists_nothing() {
    let entries = entries_with_sockets(&["pod-001"]);
    let pods = list_available_pods(false, &entries);
    assert!(pods.is_empty());
}
