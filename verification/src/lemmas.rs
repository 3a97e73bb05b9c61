//! What the rules guarantee, proved from their definitions: which findings a
//! container gives and where they stand in a workload's findings, when a
//! binding is reported, what a finding quotes, and that a rule run again on
//! the same input gives the same text. The last part is about the schedule:
//! failed checks are reported one by one, and the service keeps cycling.

use crate::checks::{
    container_findings, container_findings_of, container_subject, display_name, image_finding,
    image_findings, image_findings_of, insecure_workload_findings, may_run_as_root_finding,
    network_policy_finding, no_run_as_non_root_finding, no_security_context_finding,
    outdated_component_findings, privileged_finding, privileged_findings, role_binding_finding,
};
use crate::monitor::{
    cycle_closing, cycle_reports, failure_report, monitor_step_of, out_line, MonitorAction,
    MonitorEventView, ScanFailuresView, POLL_INTERVAL_SECS,
};
use crate::records::{
    ContainerView, NetworkPolicyRecord, RoleBindingRecord, RoleBindingView, WorkloadRecord,
    WorkloadView,
};
use crate::seq_lemmas::{lemma_flat_map_empty, lemma_flat_map_split};
use crate::text::{contains_text, decimal, lemma_part_is_contained, lowercase_of};
use vstd::prelude::*;

verus! {

/// The same workload with only the containers before position `i`.
pub open spec fn containers_before(w: WorkloadView, i: int) -> WorkloadView {
    WorkloadView { name: w.name, containers: w.containers.take(i) }
}

/// The same workload with only the containers after position `i`.
pub open spec fn containers_after(w: WorkloadView, i: int) -> WorkloadView {
    WorkloadView { name: w.name, containers: w.containers.skip(i + 1) }
}

/// In the findings of the insecure-workload rule, the findings of container
/// `i` stand together, after those of the containers before it and before
/// those of the containers after it.
pub proof fn lemma_insecure_findings_by_container(w: WorkloadView, i: int)
    requires
        0 <= i < w.containers.len(),
    ensures
        insecure_workload_findings(w) == insecure_workload_findings(containers_before(w, i))
            + container_findings(display_name(w.name), w.containers[i])
            + insecure_workload_findings(containers_after(w, i)),
{
    lemma_flat_map_split(w.containers, container_findings_of(display_name(w.name)), i);
}

/// A container without a security profile gives exactly one finding, the one
/// that says that no security context is defined, and nothing else: between
/// the findings of the containers before it and those of the containers after
/// it stands that finding alone.
pub proof fn lemma_missing_profile_gives_one_finding(w: WorkloadView, i: int)
    requires
        0 <= i < w.containers.len(),
        w.containers[i].security_profile is None,
    ensures
        insecure_workload_findings(w) == insecure_workload_findings(containers_before(w, i))
            + seq![no_security_context_finding(display_name(w.name), w.containers[i].name)]
            + insecure_workload_findings(containers_after(w, i)),
        contains_text(
            no_security_context_finding(display_name(w.name), w.containers[i].name),
            " has no security context defined"@,
        ),
{
    lemma_insecure_findings_by_container(w, i);
    let subject = container_subject("[K01]"@, display_name(w.name), w.containers[i].name);
    lemma_part_is_contained(subject, " has no security context defined"@, Seq::empty());
    assert(subject + " has no security context defined"@ + Seq::<char>::empty() =~= subject
        + " has no security context defined"@);
}

/// A container whose profile sets `runAsNonRoot` to `false` and `privileged`
/// to `true` gives exactly two findings: that it may run as root, then that
/// it runs in privileged mode.
pub proof fn lemma_root_and_privileged_give_two_findings(w: WorkloadView, i: int)
    requires
        0 <= i < w.containers.len(),
        w.containers[i].security_profile matches Some(p) && p.run_as_non_root == Some(false)
            && p.privileged == Some(true),
    ensures
        insecure_workload_findings(w) == insecure_workload_findings(containers_before(w, i))
            + seq![
            may_run_as_root_finding(display_name(w.name), w.containers[i].name),
            privileged_finding(display_name(w.name), w.containers[i].name),
        ] + insecure_workload_findings(containers_after(w, i)),
{
    lemma_insecure_findings_by_container(w, i);
    assert(container_findings(display_name(w.name), w.containers[i]) =~= seq![
        may_run_as_root_finding(display_name(w.name), w.containers[i].name),
        privileged_finding(display_name(w.name), w.containers[i].name),
    ]);
}

/// A container whose profile leaves `runAsNonRoot` unset gives the finding
/// that says so, whatever `privileged` holds; only what `privileged`
/// contributes follows it.
pub proof fn lemma_unset_run_as_non_root_is_reported(w: WorkloadView, i: int)
    requires
        0 <= i < w.containers.len(),
        w.containers[i].security_profile matches Some(p) && p.run_as_non_root is None,
    ensures
        insecure_workload_findings(w) == insecure_workload_findings(containers_before(w, i))
            + (seq![no_run_as_non_root_finding(display_name(w.name), w.containers[i].name)]
            + privileged_findings(
            display_name(w.name),
            w.containers[i].name,
            w.containers[i].security_profile->0.privileged,
        )) + insecure_workload_findings(containers_after(w, i)),
{
    lemma_insecure_findings_by_container(w, i);
}

/// A workload without containers gives no finding under either workload rule.
pub proof fn lemma_no_containers_no_findings(w: WorkloadView)
    requires
        w.containers.len() == 0,
    ensures
        insecure_workload_findings(w) == Seq::<Seq<char>>::empty(),
        outdated_component_findings(w) == Seq::<Seq<char>>::empty(),
{
    lemma_flat_map_empty(w.containers, container_findings_of(display_name(w.name)));
    lemma_flat_map_empty(w.containers, image_findings_of(display_name(w.name)));
}

/// Every finding of the insecure-workload rule for a container opens with the
/// rule's tag and names the workload and the container.
pub proof fn lemma_insecure_findings_name_their_subject(pod: Seq<char>, c: ContainerView, k: int)
    requires
        0 <= k < container_findings(pod, c).len(),
    ensures
        "[K01]"@.is_prefix_of(container_findings(pod, c)[k]),
        contains_text(container_findings(pod, c)[k], pod),
        contains_text(container_findings(pod, c)[k], c.name),
{
    let finding = container_findings(pod, c)[k];
    let closing = finding.skip(container_subject("[K01]"@, pod, c.name).len() as int);
    assert(finding =~= container_subject("[K01]"@, pod, c.name) + closing);
    lemma_subject_is_named("[K01]"@, pod, c.name, closing);
}

/// A finding that opens with the subject of a container carries the tag as
/// its prefix and quotes both names.
proof fn lemma_subject_is_named(
    tag: Seq<char>,
    pod: Seq<char>,
    container: Seq<char>,
    closing: Seq<char>,
)
    ensures
        tag.is_prefix_of(container_subject(tag, pod, container) + closing),
        contains_text(container_subject(tag, pod, container) + closing, pod),
        contains_text(container_subject(tag, pod, container) + closing, container),
{
    let finding = container_subject(tag, pod, container) + closing;
    assert(finding =~= (tag + " Pod '"@) + pod + ("' container '"@ + container + "'"@ + closing));
    lemma_part_is_contained(tag + " Pod '"@, pod, "' container '"@ + container + "'"@ + closing);
    assert(finding =~= (tag + " Pod '"@ + pod + "' container '"@) + container + ("'"@ + closing));
    lemma_part_is_contained(
        tag + " Pod '"@ + pod + "' container '"@,
        container,
        "'"@ + closing,
    );
}

/// The role-binding rule reports a binding exactly when its kind is
/// `ClusterRole` and its lowercased role name mentions `cluster-admin`; the
/// finding then quotes the role name as the binding has it.
pub proof fn lemma_role_binding_reported_iff(rb: RoleBindingView)
    ensures
        role_binding_finding(rb, lowercase_of(rb.role_ref.name)) is Some <==> (rb.role_ref.kind
            == "ClusterRole"@ && contains_text(lowercase_of(rb.role_ref.name), "cluster-admin"@)),
        role_binding_finding(rb, lowercase_of(rb.role_ref.name)) matches Some(finding)
            ==> contains_text(finding, rb.role_ref.name),
{
    if role_binding_finding(rb, lowercase_of(rb.role_ref.name)) is Some {
        lemma_part_is_contained(
            "[K03] RoleBinding '"@ + display_name(rb.name)
                + "' binds a high-privilege ClusterRole '"@,
            rb.role_ref.name,
            "'"@,
        );
    }
}

/// A binding whose kind is not exactly `ClusterRole` is never reported,
/// whatever its role name is or lowercases to.
pub proof fn lemma_other_kinds_are_not_reported(rb: RoleBindingView, lowered_name: Seq<char>)
    requires
        rb.role_ref.kind != "ClusterRole"@,
    ensures
        role_binding_finding(rb, lowered_name) is None,
{
}

/// A binding to a role of kind `Role` is never reported, not even when the
/// role is named `cluster-admin`.
pub proof fn lemma_role_kind_is_not_reported(rb: RoleBindingView, lowered_name: Seq<char>)
    requires
        rb.role_ref.kind == "Role"@,
    ensures
        role_binding_finding(rb, lowered_name) is None,
{
    reveal_strlit("Role");
    reveal_strlit("ClusterRole");
    assert("Role"@.len() != "ClusterRole"@.len());
}

/// The finding of the network-segmentation rule says that no policy was
/// found when there is none, and otherwise states their number in decimal.
pub proof fn lemma_network_policy_finding_wording(count: nat)
    ensures
        count == 0 ==> contains_text(network_policy_finding(count), "No NetworkPolicies found"@),
        count > 0 ==> contains_text(
            network_policy_finding(count),
            "Found "@ + decimal(count) + " NetworkPolicy"@,
        ),
{
    if count == 0 {
        reveal_strlit(
            "[K07] No NetworkPolicies found. Consider implementing network segmentation controls.",
        );
        reveal_strlit("[K07] ");
        reveal_strlit("No NetworkPolicies found");
        reveal_strlit(". Consider implementing network segmentation controls.");
        assert(network_policy_finding(count) =~= "[K07] "@ + "No NetworkPolicies found"@
            + ". Consider implementing network segmentation controls."@);
        lemma_part_is_contained(
            "[K07] "@,
            "No NetworkPolicies found"@,
            ". Consider implementing network segmentation controls."@,
        );
    } else {
        reveal_strlit("[K07] Found ");
        reveal_strlit("[K07] ");
        reveal_strlit("Found ");
        reveal_strlit(" NetworkPolicy object(s).");
        reveal_strlit(" NetworkPolicy");
        reveal_strlit(" object(s).");
        assert(network_policy_finding(count) =~= "[K07] "@ + ("Found "@ + decimal(count)
            + " NetworkPolicy"@) + " object(s)."@);
        lemma_part_is_contained(
            "[K07] "@,
            "Found "@ + decimal(count) + " NetworkPolicy"@,
            " object(s)."@,
        );
    }
}

/// In the findings of the component rule, the findings of container `i`
/// stand after those of the containers before it and before those of the
/// containers after it.
pub proof fn lemma_image_findings_by_container(w: WorkloadView, i: int)
    requires
        0 <= i < w.containers.len(),
    ensures
        outdated_component_findings(w) == outdated_component_findings(containers_before(w, i))
            + image_findings(display_name(w.name), w.containers[i]) + outdated_component_findings(
            containers_after(w, i),
        ),
{
    lemma_flat_map_split(w.containers, image_findings_of(display_name(w.name)), i);
}

/// A container that states an image gives exactly one finding under the
/// component rule, and that finding opens with the rule's tag and quotes the
/// image unchanged; a container without an image gives none.
pub proof fn lemma_image_is_reported_verbatim(pod: Seq<char>, c: ContainerView)
    ensures
        c.image is None ==> image_findings(pod, c) == Seq::<Seq<char>>::empty(),
        c.image matches Some(image) ==> {
            &&& image_findings(pod, c) == seq![image_finding(pod, c.name, image)]
            &&& contains_text(image_finding(pod, c.name, image), image)
            &&& "[K10]"@.is_prefix_of(image_finding(pod, c.name, image))
            &&& contains_text(image_finding(pod, c.name, image), pod)
            &&& contains_text(image_finding(pod, c.name, image), c.name)
        },
{
    if let Some(image) = c.image {
        lemma_part_is_contained(
            container_subject("[K10]"@, pod, c.name) + " is running image '"@,
            image,
            "'"@,
        );
        let closing = " is running image '"@ + image + "'"@;
        assert(image_finding(pod, c.name, image) =~= container_subject("[K10]"@, pod, c.name)
            + closing);
        lemma_subject_is_named("[K10]"@, pod, c.name, closing);
    }
}

/// Whether a container states an image.
pub open spec fn has_image() -> spec_fn(ContainerView) -> bool {
    |c: ContainerView| c.image is Some
}

/// The component rule gives as many findings as there are containers that
/// state an image.
pub proof fn lemma_one_finding_per_image(w: WorkloadView)
    ensures
        outdated_component_findings(w).len() == w.containers.filter(has_image()).len(),
    decreases w.containers.len(),
{
    if w.containers.len() == 0 {
        lemma_no_containers_no_findings(w);
        w.containers.lemma_filter_len(has_image());
    } else {
        let last = w.containers.len() - 1;
        let shorter = containers_before(w, last);
        lemma_one_finding_per_image(shorter);
        lemma_image_findings_by_container(w, last);
        lemma_no_containers_no_findings(containers_after(w, last));
        assert(w.containers =~= shorter.containers.push(w.containers[last]));
        shorter.containers.lemma_filter_push(w.containers[last], has_image());
    }
}

/// Running the insecure-workload rule again on an unchanged workload gives
/// the same findings: two results that meet the rule's contract on workloads
/// with the same content are the same text, line for line.
pub proof fn lemma_insecure_workloads_repeatable(
    pod: WorkloadRecord,
    again: WorkloadRecord,
    first: Vec<String>,
    second: Vec<String>,
)
    requires
        pod@ == again@,
        first.deep_view() == insecure_workload_findings(pod@),
        second.deep_view() == insecure_workload_findings(again@),
    ensures
        first.deep_view() == second.deep_view(),
{
}

/// Running the role-binding rule again on an unchanged binding gives the
/// same result.
pub proof fn lemma_role_binding_repeatable(
    rb: RoleBindingRecord,
    again: RoleBindingRecord,
    first: Option<String>,
    second: Option<String>,
)
    requires
        rb@ == again@,
        first.deep_view() == role_binding_finding(rb@, lowercase_of(rb@.role_ref.name)),
        second.deep_view() == role_binding_finding(again@, lowercase_of(again@.role_ref.name)),
    ensures
        first.deep_view() == second.deep_view(),
{
}

/// Running the network-segmentation rule again on a collection of the same
/// size gives the same finding.
pub proof fn lemma_network_policies_repeatable(
    policies: Seq<NetworkPolicyRecord>,
    again: Seq<NetworkPolicyRecord>,
    first: Option<String>,
    second: Option<String>,
)
    requires
        policies.len() == again.len(),
        first.deep_view() == Some(network_policy_finding(policies.len())),
        second.deep_view() == Some(network_policy_finding(again.len())),
    ensures
        first.deep_view() == second.deep_view(),
{
}

/// Running the component rule again on an unchanged workload gives the same
/// findings.
pub proof fn lemma_outdated_components_repeatable(
    pod: WorkloadRecord,
    again: WorkloadRecord,
    first: Vec<String>,
    second: Vec<String>,
)
    requires
        pod@ == again@,
        first.deep_view() == outdated_component_findings(pod@),
        second.deep_view() == outdated_component_findings(again@),
    ensures
        first.deep_view() == second.deep_view(),
{
}

/// How many checks of a cycle failed to fetch their objects.
pub open spec fn failure_count(failures: ScanFailuresView) -> nat {
    let workloads: nat = if failures.insecure_workloads is Some { 1 } else { 0 };
    let rbac: nat = if failures.rbac is Some { 1 } else { 0 };
    let policies: nat = if failures.network_policies is Some { 1 } else { 0 };
    let components: nat = if failures.outdated_components is Some { 1 } else { 0 };
    workloads + rbac + policies + components
}

/// A failed check is reported whatever became of the other three, and
/// nothing else is: a cycle has one report for each failed check, and the
/// report of a check is the line that [`failure_report`] gives for it.
pub proof fn lemma_failures_are_reported_independently(failures: ScanFailuresView)
    ensures
        cycle_reports(failures).len() == failure_count(failures),
        failures.insecure_workloads is Some ==> cycle_reports(failures).contains(
            failure_report("insecure workloads"@, failures.insecure_workloads)[0],
        ),
        failures.rbac is Some ==> cycle_reports(failures).contains(
            failure_report("RBAC"@, failures.rbac)[0],
        ),
        failures.network_policies is Some ==> cycle_reports(failures).contains(
            failure_report("network policies"@, failures.network_policies)[0],
        ),
        failures.outdated_components is Some ==> cycle_reports(failures).contains(
            failure_report("outdated components"@, failures.outdated_components)[0],
        ),
{
    let workloads = failure_report("insecure workloads"@, failures.insecure_workloads);
    let rbac = failure_report("RBAC"@, failures.rbac);
    let policies = failure_report("network policies"@, failures.network_policies);
    let components = failure_report("outdated components"@, failures.outdated_components);
    let reports = cycle_reports(failures);
    assert(reports == workloads + rbac + policies + components);
    if failures.insecure_workloads is Some {
        assert(reports[0] == workloads[0]);
    }
    if failures.rbac is Some {
        assert(reports[workloads.len() as int] == rbac[0]);
    }
    if failures.network_policies is Some {
        assert(reports[(workloads.len() + rbac.len()) as int] == policies[0]);
    }
    if failures.outdated_components is Some {
        assert(reports[(workloads.len() + rbac.len() + policies.len()) as int] == components[0]);
    }
}

/// A finished scan is always followed by the closing line and a wait of
/// [`POLL_INTERVAL_SECS`], however many checks failed.
pub proof fn lemma_finished_scan_is_followed_by_a_wait(failures: ScanFailuresView)
    ensures
        monitor_step_of(MonitorAction::Scan, MonitorEventView::ScanFinished(failures)).next
            == MonitorAction::Sleep(POLL_INTERVAL_SECS),
        monitor_step_of(MonitorAction::Scan, MonitorEventView::ScanFinished(failures)).lines.last()
            == out_line(cycle_closing()),
{
}

/// Once the cluster is reached the service runs on: from a scan or a wait no
/// event leads to `Stop` or back to `Connect`.
pub proof fn lemma_service_runs_on_once_connected(pending: MonitorAction, event: MonitorEventView)
    requires
        pending is Scan || pending is Sleep,
    ensures
        monitor_step_of(pending, event).next is Scan || monitor_step_of(pending, event).next
            is Sleep,
{
}

} // verus!
