use hk8s::monitor::{
    check_insecure_workloads, check_network_policies, check_outdated_components,
    check_overly_permissive_rbac, initial_action, monitor_step, MonitorAction, MonitorEvent,
    OutputLine, ScanFailures, OutputStream, COMPONENT_SELECTOR, NAMESPACE, POLL_INTERVAL_SECS,
};
use hk8s::records::{
    ContainerRecord, NetworkPolicyRecord, RoleBindingRecord, RoleReference, SecurityProfile,
    WorkloadRecord,
};

fn out(text: &str) -> OutputLine {
    OutputLine { stream: OutputStream::Stdout, text: text.to_string() }
}

fn err(text: &str) -> OutputLine {
    OutputLine { stream: OutputStream::Stderr, text: text.to_string() }
}

fn pod(name: &str, containers: Vec<ContainerRecord>) -> WorkloadRecord {
    WorkloadRecord { name: Some(name.to_string()), containers }
}

fn cluster_role_binding(name: &str, role: &str) -> RoleBindingRecord {
    RoleBindingRecord {
        name: Some(name.to_string()),
        role_ref: RoleReference {
            api_group: "rbac.authorization.k8s.io".to_string(),
            kind: "ClusterRole".to_string(),
            name: role.to_string(),
        },
    }
}

#[test]
fn settings_are_the_documented_ones() {
    assert_eq!(NAMESPACE, "airflow");
    assert_eq!(COMPONENT_SELECTOR, "component=webserver");
    assert_eq!(POLL_INTERVAL_SECS, 30);
}

#[test]
fn check_insecure_workloads_lists_pod_by_pod() {
    let pods = vec![
        pod("a", vec![ContainerRecord { name: "x".into(), image: None, security_profile: None }]),
        pod("b", vec![]),
        pod(
            "c",
            vec![ContainerRecord {
                name: "y".into(),
                image: None,
                security_profile: Some(SecurityProfile {
                    run_as_non_root: Some(false),
                    privileged: Some(true),
                }),
            }],
        ),
    ];
    assert_eq!(
        check_insecure_workloads(&pods),
        vec![
            "[K01] Pod 'a' container 'x' has no security context defined".to_string(),
            "[K01] Pod 'c' container 'y' may run as root (runAsNonRoot is false)".to_string(),
            "[K01] Pod 'c' container 'y' is running in privileged mode".to_string(),
        ]
    );
    assert!(check_insecure_workloads(&[]).is_empty());
}

#[test]
fn check_overly_permissive_rbac_keeps_only_the_findings() {
    let bindings = vec![
        cluster_role_binding("one", "view"),
        cluster_role_binding("two", "Cluster-Admin"),
        RoleBindingRecord {
            name: Some("three".into()),
            role_ref: RoleReference {
                api_group: "rbac.authorization.k8s.io".into(),
                kind: "Role".into(),
                name: "cluster-admin".into(),
            },
        },
        cluster_role_binding("four", "cluster-admin"),
    ];
    assert_eq!(
        check_overly_permissive_rbac(&bindings),
        vec![
            "[K03] RoleBinding 'two' binds a high-privilege ClusterRole 'Cluster-Admin'"
                .to_string(),
            "[K03] RoleBinding 'four' binds a high-privilege ClusterRole 'cluster-admin'"
                .to_string(),
        ]
    );
    assert!(check_overly_permissive_rbac(&[]).is_empty());
}

#[test]
fn check_network_policies_always_gives_one_line() {
    assert_eq!(
        check_network_policies(&[]),
        vec![
            "[K07] No NetworkPolicies found. Consider implementing network segmentation controls."
                .to_string()
        ]
    );
    let two = vec![
        NetworkPolicyRecord { name: Some("np1".into()) },
        NetworkPolicyRecord { name: None },
    ];
    assert_eq!(
        check_network_policies(&two),
        vec!["[K07] Found 2 NetworkPolicy object(s).".to_string()]
    );
}

#[test]
fn check_outdated_components_lists_pod_by_pod() {
    let pods = vec![
        pod(
            "web-1",
            vec![ContainerRecord {
                name: "web".into(),
                image: Some("apache/airflow:2.5.1".into()),
                security_profile: None,
            }],
        ),
        pod("web-2", vec![ContainerRecord { name: "web".into(), image: None, security_profile: None }]),
        pod(
            "web-3",
            vec![ContainerRecord {
                name: "web".into(),
                image: Some("apache/airflow:latest".into()),
                security_profile: None,
            }],
        ),
    ];
    assert_eq!(
        check_outdated_components(&pods),
        vec![
            "[K10] Pod 'web-1' container 'web' is running image 'apache/airflow:2.5.1'"
                .to_string(),
            "[K10] Pod 'web-3' container 'web' is running image 'apache/airflow:latest'"
                .to_string(),
        ]
    );
}

#[test]
fn service_starts_by_connecting() {
    assert_eq!(initial_action(), MonitorAction::Connect);
}

#[test]
fn connection_leads_to_banner_and_first_cycle() {
    let step = monitor_step(MonitorAction::Connect, &MonitorEvent::Connected);
    assert_eq!(
        step.lines,
        vec![
            out("Starting continuous Kubernetes monitoring service in namespace 'airflow'"),
            out("--- Running security checks ---"),
        ]
    );
    assert_eq!(step.next, MonitorAction::Scan);
}

#[test]
fn failed_connection_stops_the_service() {
    let step = monitor_step(MonitorAction::Connect, &MonitorEvent::ConnectFailed);
    assert!(step.lines.is_empty());
    assert_eq!(step.next, MonitorAction::Stop);
}

#[test]
fn clean_scan_closes_the_cycle_and_sleeps() {
    let step =
        monitor_step(MonitorAction::Scan, &MonitorEvent::ScanFinished(ScanFailures::default()));
    assert_eq!(step.lines, vec![out("--- Security checks complete ---\n")]);
    assert_eq!(step.next, MonitorAction::Sleep(30));
}

#[test]
fn every_failed_check_is_reported_in_fixed_order() {
    let failures = ScanFailures {
        insecure_workloads: Some("timeout".into()),
        rbac: Some("forbidden".into()),
        network_policies: Some("refused".into()),
        outdated_components: Some("gone".into()),
    };
    let step = monitor_step(MonitorAction::Scan, &MonitorEvent::ScanFinished(failures));
    assert_eq!(
        step.lines,
        vec![
            err("Error in insecure workloads check: timeout"),
            err("Error in RBAC check: forbidden"),
            err("Error in network policies check: refused"),
            err("Error in outdated components check: gone"),
            out("--- Security checks complete ---\n"),
        ]
    );
    assert_eq!(step.next, MonitorAction::Sleep(30));
}

#[test]
fn one_failed_check_does_not_hide_the_cycle_end() {
    let failures = ScanFailures { rbac: Some("forbidden".into()), ..Default::default() };
    let step = monitor_step(MonitorAction::Scan, &MonitorEvent::ScanFinished(failures));
    assert_eq!(
        step.lines,
        vec![err("Error in RBAC check: forbidden"), out("--- Security checks complete ---\n")]
    );
    assert_eq!(step.next, MonitorAction::Sleep(30));
}

#[test]
fn waking_opens_the_next_cycle() {
    let step = monitor_step(MonitorAction::Sleep(30), &MonitorEvent::Woke);
    assert_eq!(step.lines, vec![out("--- Running security checks ---")]);
    assert_eq!(step.next, MonitorAction::Scan);
    let other = monitor_step(MonitorAction::Sleep(5), &MonitorEvent::Woke);
    assert_eq!(other.next, MonitorAction::Scan);
}

#[test]
fn an_event_that_answers_nothing_changes_nothing() {
    let pendings =
        [MonitorAction::Connect, MonitorAction::Scan, MonitorAction::Sleep(30), MonitorAction::Stop];
    let events = [
        MonitorEvent::Connected,
        MonitorEvent::ConnectFailed,
        MonitorEvent::ScanFinished(ScanFailures::default()),
        MonitorEvent::Woke,
    ];
    for (p, pending) in pendings.iter().enumerate() {
        for (e, event) in events.iter().enumerate() {
            let answers = (p == 0 && e <= 1) || (p == 1 && e == 2) || (p == 2 && e == 3);
            if !answers {
                let step = monitor_step(*pending, event);
                assert!(step.lines.is_empty());
                assert_eq!(step.next, *pending);
            }
        }
    }
}

#[test]
fn the_service_cycles_forever_once_connected() {
    let mut pending = monitor_step(initial_action(), &MonitorEvent::Connected).next;
    for _ in 0..5 {
        assert_eq!(pending, MonitorAction::Scan);
        pending =
            monitor_step(pending, &MonitorEvent::ScanFinished(ScanFailures::default())).next;
        assert_eq!(pending, MonitorAction::Sleep(POLL_INTERVAL_SECS));
        pending = monitor_step(pending, &MonitorEvent::Woke).next;
    }
    assert_eq!(pending, MonitorAction::Scan);
}
