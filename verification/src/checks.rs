//! The four security rules. Each is a total function from records to
//! findings: rule-tagged lines of text that name the offending object.

use crate::records::{
    ContainerRecord, ContainerView, NetworkPolicyRecord, RoleBindingRecord, RoleBindingView,
    WorkloadRecord, WorkloadView,
};
use crate::seq_lemmas::{lemma_flat_map_empty, lemma_flat_map_take_next};
use crate::text::{contains, contains_text, decimal, decimal_string, lowercase, lowercase_of};
use vstd::prelude::*;

verus! {

/// The name a finding uses for an object: its own, or `<unknown>` if it has none.
pub open spec fn display_name(name: Option<Seq<char>>) -> Seq<char> {
    match name {
        Some(n) => n,
        None => "<unknown>"@,
    }
}

/// The opening of a finding about one container of a workload.
pub open spec fn container_subject(tag: Seq<char>, pod: Seq<char>, container: Seq<char>) -> Seq<
    char,
> {
    tag + " Pod '"@ + pod + "' container '"@ + container + "'"@
}

/// Finding: the container has no security profile at all.
pub open spec fn no_security_context_finding(pod: Seq<char>, container: Seq<char>) -> Seq<char> {
    container_subject("[K01]"@, pod, container) + " has no security context defined"@
}

/// Finding: the profile leaves `runAsNonRoot` unset.
pub open spec fn no_run_as_non_root_finding(pod: Seq<char>, container: Seq<char>) -> Seq<char> {
    container_subject("[K01]"@, pod, container) + " has no runAsNonRoot setting"@
}

/// Finding: the profile sets `runAsNonRoot` to `false`.
pub open spec fn may_run_as_root_finding(pod: Seq<char>, container: Seq<char>) -> Seq<char> {
    container_subject("[K01]"@, pod, container) + " may run as root (runAsNonRoot is false)"@
}

/// Finding: the profile sets `privileged` to `true`.
pub open spec fn privileged_finding(pod: Seq<char>, container: Seq<char>) -> Seq<char> {
    container_subject("[K01]"@, pod, container) + " is running in privileged mode"@
}

/// What the `runAsNonRoot` flag of a profile contributes.
pub open spec fn run_as_non_root_findings(
    pod: Seq<char>,
    container: Seq<char>,
    flag: Option<bool>,
) -> Seq<Seq<char>> {
    match flag {
        None => seq![no_run_as_non_root_finding(pod, container)],
        Some(false) => seq![may_run_as_root_finding(pod, container)],
        Some(true) => seq![],
    }
}

/// What the `privileged` flag of a profile contributes.
pub open spec fn privileged_findings(
    pod: Seq<char>,
    container: Seq<char>,
    flag: Option<bool>,
) -> Seq<Seq<char>> {
    if flag == Some(true) {
        seq![privileged_finding(pod, container)]
    } else {
        seq![]
    }
}

/// The findings of the insecure-workload rule for one container of the
/// workload named `pod`: the `runAsNonRoot` check first, then `privileged`;
/// without a profile, the one finding that says so.
pub open spec fn container_findings(pod: Seq<char>, c: ContainerView) -> Seq<Seq<char>> {
    match c.security_profile {
        None => seq![no_security_context_finding(pod, c.name)],
        Some(p) => run_as_non_root_findings(pod, c.name, p.run_as_non_root) + privileged_findings(
            pod,
            c.name,
            p.privileged,
        ),
    }
}

/// [`container_findings`] for a fixed workload name, as a function of the container.
pub open spec fn container_findings_of(pod: Seq<char>) -> spec_fn(ContainerView) -> Seq<Seq<char>> {
    |c: ContainerView| container_findings(pod, c)
}

/// The findings of the insecure-workload rule for a workload: those of its
/// containers, in container order.
pub open spec fn insecure_workload_findings(w: WorkloadView) -> Seq<Seq<char>> {
    w.containers.flat_map(container_findings_of(display_name(w.name)))
}

/// The name a finding uses for an object, as a string slice.
fn name_or_unknown(name: &Option<String>) -> (s: &str)
    ensures
        s@ == display_name(name.deep_view()),
{
    match name {
        Some(n) => n.as_str(),
        None => "<unknown>",
    }
}

/// Builds the opening of a finding about one container.
fn subject(tag: &str, pod: &str, container: &str) -> (s: String)
    ensures
        s@ == container_subject(tag@, pod@, container@),
{
    let mut s = String::from_str(tag);
    s.append(" Pod '");
    s.append(pod);
    s.append("' container '");
    s.append(container);
    s.append("'");
    s
}

/// Builds a finding of the insecure-workload rule from its closing words.
fn insecure_finding(pod: &str, container: &str, rest: &str) -> (s: String)
    ensures
        s@ == container_subject("[K01]"@, pod@, container@) + rest@,
{
    let mut s = subject("[K01]", pod, container);
    s.append(rest);
    s
}

/// Appends the findings for one container to `warnings`.
fn push_container_findings(pod: &str, c: &ContainerRecord, warnings: &mut Vec<String>)
    ensures
        final(warnings).deep_view() == old(warnings).deep_view() + container_findings(pod@, c@),
{
    let ghost before = warnings.deep_view();
    match &c.security_profile {
        Some(profile) => {
            match profile.run_as_non_root {
                Some(run_as_non_root) => {
                    if !run_as_non_root {
                        warnings.push(
                            insecure_finding(
                                pod,
                                c.name.as_str(),
                                " may run as root (runAsNonRoot is false)",
                            ),
                        );
                    }
                },
                None => {
                    warnings.push(
                        insecure_finding(pod, c.name.as_str(), " has no runAsNonRoot setting"),
                    );
                },
            }
            assert(warnings.deep_view() =~= before + run_as_non_root_findings(
                pod@,
                c@.name,
                profile.run_as_non_root,
            ));
            if let Some(privileged) = profile.privileged {
                if privileged {
                    warnings.push(
                        insecure_finding(pod, c.name.as_str(), " is running in privileged mode"),
                    );
                }
            }
            assert(warnings.deep_view() =~= before + container_findings(pod@, c@));
        },
        None => {
            warnings.push(
                insecure_finding(pod, c.name.as_str(), " has no security context defined"),
            );
            assert(warnings.deep_view() =~= before + container_findings(pod@, c@));
        },
    }
}

/// Insecure workload configurations: reports, container by container, a
/// missing security profile, an unset or `false` `runAsNonRoot`, and
/// privileged mode.
pub fn analyze_pod_insecure_workloads(pod: &WorkloadRecord) -> (warnings: Vec<String>)
    ensures
        warnings.deep_view() == insecure_workload_findings(pod@),
{
    let mut warnings: Vec<String> = Vec::new();
    let pod_name = name_or_unknown(&pod.name);
    let ghost per_container = container_findings_of(display_name(pod@.name));
    let mut i: usize = 0;
    proof {
        lemma_flat_map_empty(pod@.containers.take(0), per_container);
    }
    while i < pod.containers.len()
        invariant
            i <= pod.containers.len(),
            pod_name@ == display_name(pod@.name),
            per_container == container_findings_of(display_name(pod@.name)),
            warnings.deep_view() == pod@.containers.take(i as int).flat_map(per_container),
        decreases pod.containers.len() - i,
    {
        push_container_findings(pod_name, &pod.containers[i], &mut warnings);
        proof {
            lemma_flat_map_take_next(pod@.containers, per_container, i as int);
        }
        i += 1;
    }
    assert(pod@.containers.take(i as int) =~= pod@.containers);
    warnings
}

/// Whether a role reference grants cluster-wide administration: its kind is
/// exactly `ClusterRole` and its name, already lowercased, mentions
/// `cluster-admin`.
pub open spec fn grants_cluster_admin(kind: Seq<char>, lowered_name: Seq<char>) -> bool {
    kind == "ClusterRole"@ && contains_text(lowered_name, "cluster-admin"@)
}

/// The wording of the finding of the role-binding rule.
pub open spec fn high_privilege_finding(binding: Seq<char>, role: Seq<char>) -> Seq<char> {
    "[K03] RoleBinding '"@ + binding + "' binds a high-privilege ClusterRole '"@ + role + "'"@
}

/// The finding of the role-binding rule for a binding whose role name
/// lowercases to `lowered_name`, if there is one. The finding quotes the role
/// name as the binding has it.
pub open spec fn role_binding_finding(rb: RoleBindingView, lowered_name: Seq<char>) -> Option<
    Seq<char>,
> {
    if grants_cluster_admin(rb.role_ref.kind, lowered_name) {
        Some(high_privilege_finding(display_name(rb.name), rb.role_ref.name))
    } else {
        None
    }
}

/// The role-binding rule, given the lowercase form of the role name.
pub fn role_binding_warning(rb: &RoleBindingRecord, lowered_name: &str) -> (finding: Option<String>)
    ensures
        finding.deep_view() == role_binding_finding(rb@, lowered_name@),
        finding is Some <==> grants_cluster_admin(rb@.role_ref.kind, lowered_name@),
{
    let cluster_role = String::from_str("ClusterRole");
    if rb.role_ref.kind == cluster_role && contains(lowered_name, "cluster-admin") {
        let mut s = String::from_str("[K03] RoleBinding '");
        s.append(name_or_unknown(&rb.name));
        s.append("' binds a high-privilege ClusterRole '");
        s.append(rb.role_ref.name.as_str());
        s.append("'");
        Some(s)
    } else {
        None
    }
}

/// Overly permissive access control: reports a binding to a `ClusterRole`
/// whose name, compared without regard to case, mentions `cluster-admin`.
pub fn analyze_role_binding(rb: &RoleBindingRecord) -> (finding: Option<String>)
    ensures
        finding.deep_view() == role_binding_finding(rb@, lowercase_of(rb@.role_ref.name)),
        finding is Some <==> rb@.role_ref.kind == "ClusterRole"@ && contains_text(
            lowercase_of(rb@.role_ref.name),
            "cluster-admin"@,
        ),
{
    let lowered = lowercase(rb.role_ref.name.as_str());
    role_binding_warning(rb, lowered.as_str())
}

/// The finding of the network-segmentation rule for a namespace that holds
/// `count` network policies.
pub open spec fn network_policy_finding(count: nat) -> Seq<char> {
    if count == 0 {
        "[K07] No NetworkPolicies found. Consider implementing network segmentation controls."@
    } else {
        "[K07] Found "@ + decimal(count) + " NetworkPolicy object(s)."@
    }
}

/// Missing network segmentation: always one finding, an advisory when the
/// namespace has no network policy and their number otherwise.
pub fn analyze_network_policies(nps: &[NetworkPolicyRecord]) -> (finding: Option<String>)
    ensures
        finding.deep_view() == Some(network_policy_finding(nps@.len())),
{
    if nps.len() == 0 {
        Some(
            String::from_str(
                "[K07] No NetworkPolicies found. Consider implementing network segmentation controls.",
            ),
        )
    } else {
        let mut s = String::from_str("[K07] Found ");
        let count = decimal_string(nps.len());
        s.append(count.as_str());
        s.append(" NetworkPolicy object(s).");
        Some(s)
    }
}

/// The wording of the finding of the component rule.
pub open spec fn image_finding(pod: Seq<char>, container: Seq<char>, image: Seq<char>) -> Seq<
    char,
> {
    container_subject("[K10]"@, pod, container) + " is running image '"@ + image + "'"@
}

/// The findings of the component rule for one container of the workload named
/// `pod`: its image, if it states one.
pub open spec fn image_findings(pod: Seq<char>, c: ContainerView) -> Seq<Seq<char>> {
    match c.image {
        Some(image) => seq![image_finding(pod, c.name, image)],
        None => seq![],
    }
}

/// [`image_findings`] for a fixed workload name, as a function of the container.
pub open spec fn image_findings_of(pod: Seq<char>) -> spec_fn(ContainerView) -> Seq<Seq<char>> {
    |c: ContainerView| image_findings(pod, c)
}

/// The findings of the component rule for a workload: the images of its
/// containers, in container order.
pub open spec fn outdated_component_findings(w: WorkloadView) -> Seq<Seq<char>> {
    w.containers.flat_map(image_findings_of(display_name(w.name)))
}

/// Appends the image finding for one container, if it has an image.
fn push_image_findings(pod: &str, c: &ContainerRecord, warnings: &mut Vec<String>)
    ensures
        final(warnings).deep_view() == old(warnings).deep_view() + image_findings(pod@, c@),
{
    let ghost before = warnings.deep_view();
    if let Some(image) = &c.image {
        let mut s = subject("[K10]", pod, c.name.as_str());
        s.append(" is running image '");
        s.append(image.as_str());
        s.append("'");
        warnings.push(s);
    }
    assert(warnings.deep_view() =~= before + image_findings(pod@, c@));
}

/// Outdated components: reports the image of every container that states
/// one, verbatim. No version is compared.
pub fn analyze_outdated_components(pod: &WorkloadRecord) -> (warnings: Vec<String>)
    ensures
        warnings.deep_view() == outdated_component_findings(pod@),
{
    let mut warnings: Vec<String> = Vec::new();
    let pod_name = name_or_unknown(&pod.name);
    let ghost per_container = image_findings_of(display_name(pod@.name));
    let mut i: usize = 0;
    proof {
        lemma_flat_map_empty(pod@.containers.take(0), per_container);
    }
    while i < pod.containers.len()
        invariant
            i <= pod.containers.len(),
            pod_name@ == display_name(pod@.name),
            per_container == image_findings_of(display_name(pod@.name)),
            warnings.deep_view() == pod@.containers.take(i as int).flat_map(per_container),
        decreases pod.containers.len() - i,
    {
        push_image_findings(pod_name, &pod.containers[i], &mut warnings);
        proof {
            lemma_flat_map_take_next(pod@.containers, per_container, i as int);
        }
        i += 1;
    }
    assert(pod@.containers.take(i as int) =~= pod@.containers);
    warnings
}

} // verus!
