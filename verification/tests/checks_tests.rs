use hk8s::checks::{
    analyze_network_policies, analyze_outdated_components, analyze_pod_insecure_workloads,
    analyze_role_binding,
};
use hk8s::records::{
    ContainerRecord, NetworkPolicyRecord, RoleBindingRecord, RoleReference, SecurityProfile,
    WorkloadRecord,
};

#[test]
fn test_pod_no_security_context() {
    let pod = WorkloadRecord {
        name: Some("pod-no-sc".into()),
        containers: vec![ContainerRecord {
            name: "container1".into(),
            security_profile: None,
            ..Default::default()
        }],
    };
    let warnings = analyze_pod_insecure_workloads(&pod);
    assert!(warnings.contains(
        &"[K01] Pod 'pod-no-sc' container 'container1' has no security context defined".into()
    ));
    assert_eq!(warnings.len(), 1);
}

#[test]
fn test_pod_missing_run_as_non_root() {
    let sc = SecurityProfile { run_as_non_root: None, privileged: Some(false) };
    let pod = WorkloadRecord {
        name: Some("pod-missing-run-as".into()),
        containers: vec![ContainerRecord {
            name: "container1".into(),
            security_profile: Some(sc),
            ..Default::default()
        }],
    };
    let warnings = analyze_pod_insecure_workloads(&pod);
    assert!(warnings.contains(
        &"[K01] Pod 'pod-missing-run-as' container 'container1' has no runAsNonRoot setting"
            .into()
    ));
    assert_eq!(warnings.len(), 1);
}

#[test]
fn test_pod_run_as_non_root_false_and_privileged_true() {
    let sc = SecurityProfile { run_as_non_root: Some(false), privileged: Some(true) };
    let pod = WorkloadRecord {
        name: Some("pod-insecure".into()),
        containers: vec![ContainerRecord {
            name: "container1".into(),
            security_profile: Some(sc),
            ..Default::default()
        }],
    };
    let warnings = analyze_pod_insecure_workloads(&pod);
    assert!(warnings.contains(
        &"[K01] Pod 'pod-insecure' container 'container1' may run as root (runAsNonRoot is false)"
            .into()
    ));
    assert!(warnings.contains(
        &"[K01] Pod 'pod-insecure' container 'container1' is running in privileged mode".into()
    ));
    assert_eq!(warnings.len(), 2);
}

#[test]
fn test_role_binding_cluster_admin() {
    let rb = RoleBindingRecord {
        name: Some("rb1".into()),
        role_ref: RoleReference {
            api_group: "rbac.authorization.k8s.io".into(),
            kind: "ClusterRole".into(),
            name: "cluster-admin".into(),
        },
    };
    let result = analyze_role_binding(&rb);
    assert!(result.is_some());
    assert!(result.unwrap().contains("cluster-admin"));
}

#[test]
fn test_role_binding_non_admin_cluster_role() {
    let rb = RoleBindingRecord {
        name: Some("rb2".into()),
        role_ref: RoleReference {
            api_group: "rbac.authorization.k8s.io".into(),
            kind: "ClusterRole".into(),
            name: "view".into(),
        },
    };
    let result = analyze_role_binding(&rb);
    assert!(result.is_none());
}

#[test]
fn test_role_binding_role_instead_of_cluster_role() {
    let rb = RoleBindingRecord {
        name: Some("rb3".into()),
        role_ref: RoleReference {
            api_group: "rbac.authorization.k8s.io".into(),
            kind: "Role".into(),
            name: "cluster-admin".into(),
        },
    };
    let result = analyze_role_binding(&rb);
    assert!(result.is_none());
}

#[test]
fn test_network_policies_empty() {
    let policies: Vec<NetworkPolicyRecord> = Vec::new();
    let result = analyze_network_policies(&policies);
    assert!(result.is_some());
    assert!(result.unwrap().contains("No NetworkPolicies found"));
}

#[test]
fn test_network_policies_one() {
    let np = NetworkPolicyRecord { name: Some("np1".into()) };
    let policies = vec![np];
    let result = analyze_network_policies(&policies);
    assert!(result.is_some());
    assert!(result.unwrap().contains("Found 1 NetworkPolicy"));
}

#[test]
fn test_network_policies_multiple() {
    let np1 = NetworkPolicyRecord { name: Some("np1".into()) };
    let np2 = NetworkPolicyRecord { name: Some("np2".into()) };
    let np3 = NetworkPolicyRecord { name: Some("np3".into()) };
    let policies = vec![np1, np2, np3];
    let result = analyze_network_policies(&policies);
    assert!(result.is_some());
    assert!(result.unwrap().contains("Found 3 NetworkPolicy"));
}

#[test]
fn test_outdated_component_with_versioned_image() {
    let pod = WorkloadRecord {
        name: Some("airflow-web-1".into()),
        containers: vec![ContainerRecord {
            name: "web".into(),
            image: Some("apache/airflow:2.5.1".into()),
            ..Default::default()
        }],
    };
    let warnings = analyze_outdated_components(&pod);
    assert_eq!(warnings.len(), 1);
    assert!(warnings[0].contains("apache/airflow:2.5.1"));
}

#[test]
fn test_outdated_component_with_latest_image() {
    let pod = WorkloadRecord {
        name: Some("airflow-web-2".into()),
        containers: vec![ContainerRecord {
            name: "web".into(),
            image: Some("apache/airflow:latest".into()),
            ..Default::default()
        }],
    };
    let warnings = analyze_outdated_components(&pod);
    assert_eq!(warnings.len(), 1);
    assert!(warnings[0].contains("apache/airflow:latest"));
}

#[test]
fn test_outdated_component_no_image() {
    let pod = WorkloadRecord {
        name: Some("airflow-web-3".into()),
        containers: vec![ContainerRecord {
            name: "web".into(),
            image: None,
            ..Default::default()
        }],
    };
    let warnings = analyze_outdated_components(&pod);
    assert!(warnings.is_empty());
}
