//! One scan cycle over whole collections, and the schedule of the
//! monitoring service as a step function.
//!
//! Nothing here reaches the cluster or a clock. The program around the
//! library fetches the collections, hands them to the `check_*` functions and
//! prints the lines they return; it performs the work that [`monitor_step`]
//! names and reports back what came of it.

use crate::checks::{
    analyze_network_policies, analyze_outdated_components, analyze_pod_insecure_workloads,
    analyze_role_binding, insecure_workload_findings, network_policy_finding,
    outdated_component_findings, role_binding_finding,
};
use crate::records::{
    role_binding_views, workload_views, NetworkPolicyRecord, RoleBindingRecord, RoleBindingView,
    WorkloadRecord, WorkloadView,
};
use crate::seq_lemmas::{lemma_flat_map_empty, lemma_flat_map_take_next};
use crate::text::lowercase_of;
use vstd::prelude::*;

verus! {

/// The namespace that the service watches.
pub const NAMESPACE: &'static str = "airflow";

/// The label selector that picks the workloads handed to the component rule.
pub const COMPONENT_SELECTOR: &'static str = "component=webserver";

/// Seconds between the end of one scan cycle and the start of the next.
pub const POLL_INTERVAL_SECS: u64 = 30;

/// The insecure-workload rule as a function of the workload.
pub open spec fn insecure_findings_per_workload() -> spec_fn(WorkloadView) -> Seq<Seq<char>> {
    |w: WorkloadView| insecure_workload_findings(w)
}

/// The component rule as a function of the workload.
pub open spec fn image_findings_per_workload() -> spec_fn(WorkloadView) -> Seq<Seq<char>> {
    |w: WorkloadView| outdated_component_findings(w)
}

/// The lines that an optional finding contributes: itself, or none.
pub open spec fn finding_lines(finding: Option<Seq<char>>) -> Seq<Seq<char>> {
    match finding {
        Some(text) => seq![text],
        None => seq![],
    }
}

/// The role-binding rule as a function of the binding.
pub open spec fn role_binding_lines_per_binding() -> spec_fn(RoleBindingView) -> Seq<Seq<char>> {
    |rb: RoleBindingView| finding_lines(role_binding_finding(rb, lowercase_of(rb.role_ref.name)))
}

/// Moves the lines of `more` to the end of `lines`.
fn append_lines(lines: &mut Vec<String>, more: Vec<String>)
    ensures
        final(lines).deep_view() == old(lines).deep_view() + more.deep_view(),
{
    let ghost before = lines.deep_view();
    let mut more = more;
    let ghost added = more.deep_view();
    lines.append(&mut more);
    assert(lines.deep_view() =~= before + added);
}

/// The lines of the insecure-workload check: the findings of every workload,
/// workload by workload in the order given.
pub fn check_insecure_workloads(pods: &[WorkloadRecord]) -> (lines: Vec<String>)
    ensures
        lines.deep_view() == workload_views(pods@).flat_map(insecure_findings_per_workload()),
{
    let mut lines: Vec<String> = Vec::new();
    let ghost views = workload_views(pods@);
    let ghost rule = insecure_findings_per_workload();
    let mut i: usize = 0;
    proof {
        lemma_flat_map_empty(views.take(0), rule);
    }
    while i < pods.len()
        invariant
            i <= pods.len(),
            views == workload_views(pods@),
            rule == insecure_findings_per_workload(),
            lines.deep_view() == views.take(i as int).flat_map(rule),
        decreases pods.len() - i,
    {
        let warnings = analyze_pod_insecure_workloads(&pods[i]);
        append_lines(&mut lines, warnings);
        proof {
            lemma_flat_map_take_next(views, rule, i as int);
        }
        i += 1;
    }
    assert(views.take(i as int) =~= views);
    lines
}

/// The lines of the access-control check: the finding of every binding that
/// has one, in the order given.
pub fn check_overly_permissive_rbac(bindings: &[RoleBindingRecord]) -> (lines: Vec<String>)
    ensures
        lines.deep_view() == role_binding_views(bindings@).flat_map(
            role_binding_lines_per_binding(),
        ),
{
    let mut lines: Vec<String> = Vec::new();
    let ghost views = role_binding_views(bindings@);
    let ghost rule = role_binding_lines_per_binding();
    let mut i: usize = 0;
    proof {
        lemma_flat_map_empty(views.take(0), rule);
    }
    while i < bindings.len()
        invariant
            i <= bindings.len(),
            views == role_binding_views(bindings@),
            rule == role_binding_lines_per_binding(),
            lines.deep_view() == views.take(i as int).flat_map(rule),
        decreases bindings.len() - i,
    {
        let ghost before = lines.deep_view();
        if let Some(msg) = analyze_role_binding(&bindings[i]) {
            lines.push(msg);
        }
        assert(lines.deep_view() =~= before + rule(views[i as int]));
        proof {
            lemma_flat_map_take_next(views, rule, i as int);
        }
        i += 1;
    }
    assert(views.take(i as int) =~= views);
    lines
}

/// The line of the network-segmentation check: always exactly one.
pub fn check_network_policies(policies: &[NetworkPolicyRecord]) -> (lines: Vec<String>)
    ensures
        lines.deep_view() == seq![network_policy_finding(policies@.len())],
{
    let mut lines: Vec<String> = Vec::new();
    if let Some(msg) = analyze_network_policies(policies) {
        lines.push(msg);
    }
    assert(lines.deep_view() =~= seq![network_policy_finding(policies@.len())]);
    lines
}

/// The lines of the component check: the image findings of every workload,
/// workload by workload in the order given. Which workloads are handed in is
/// the caller's choice (see [`COMPONENT_SELECTOR`]).
pub fn check_outdated_components(pods: &[WorkloadRecord]) -> (lines: Vec<String>)
    ensures
        lines.deep_view() == workload_views(pods@).flat_map(image_findings_per_workload()),
{
    let mut lines: Vec<String> = Vec::new();
    let ghost views = workload_views(pods@);
    let ghost rule = image_findings_per_workload();
    let mut i: usize = 0;
    proof {
        lemma_flat_map_empty(views.take(0), rule);
    }
    while i < pods.len()
        invariant
            i <= pods.len(),
            views == workload_views(pods@),
            rule == image_findings_per_workload(),
            lines.deep_view() == views.take(i as int).flat_map(rule),
        decreases pods.len() - i,
    {
        let warnings = analyze_outdated_components(&pods[i]);
        append_lines(&mut lines, warnings);
        proof {
            lemma_flat_map_take_next(views, rule, i as int);
        }
        i += 1;
    }
    assert(views.take(i as int) =~= views);
    lines
}

/// The stream a line is written to.
#[derive(Clone, Copy, Debug, PartialEq, Eq)]
pub enum OutputStream {
    /// Standard output: progress and findings.
    Stdout,
    /// Standard error: checks that could not fetch their objects.
    Stderr,
}

/// A line to write, without its line end, and the stream it goes to.
#[derive(Clone, Debug, PartialEq, Eq)]
pub struct OutputLine {
    pub stream: OutputStream,
    pub text: String,
}

/// View of an [`OutputLine`].
pub struct OutputLineView {
    pub stream: OutputStream,
    pub text: Seq<char>,
}

impl View for OutputLine {
    type V = OutputLineView;

    open spec fn view(&self) -> OutputLineView {
        OutputLineView { stream: self.stream, text: self.text@ }
    }
}

/// The views of a run of lines, in order.
pub open spec fn line_views(lines: Seq<OutputLine>) -> Seq<OutputLineView> {
    lines.map_values(|l: OutputLine| l@)
}

/// The work outside the library that the service does next. It also is the
/// state of the service: what it waits for.
#[derive(Clone, Copy, Debug, PartialEq, Eq)]
pub enum MonitorAction {
    /// Open the connection to the cluster.
    Connect,
    /// Fetch the four collections, run the checks and print their lines.
    Scan,
    /// Wait for the given number of seconds.
    Sleep(u64),
    /// Give up: the cluster could not be reached at startup.
    Stop,
}

/// For each check of one cycle, the description of the error that kept it
/// from fetching its objects, if there was one.
#[derive(Clone, Debug, PartialEq, Eq, Default)]
pub struct ScanFailures {
    pub insecure_workloads: Option<String>,
    pub rbac: Option<String>,
    pub network_policies: Option<String>,
    pub outdated_components: Option<String>,
}

/// View of [`ScanFailures`].
pub struct ScanFailuresView {
    pub insecure_workloads: Option<Seq<char>>,
    pub rbac: Option<Seq<char>>,
    pub network_policies: Option<Seq<char>>,
    pub outdated_components: Option<Seq<char>>,
}

impl View for ScanFailures {
    type V = ScanFailuresView;

    open spec fn view(&self) -> ScanFailuresView {
        ScanFailuresView {
            insecure_workloads: self.insecure_workloads.deep_view(),
            rbac: self.rbac.deep_view(),
            network_policies: self.network_policies.deep_view(),
            outdated_components: self.outdated_components.deep_view(),
        }
    }
}

/// What came of the work that the service waited for.
#[derive(Clone, Debug, PartialEq, Eq)]
pub enum MonitorEvent {
    /// The connection to the cluster is open.
    Connected,
    /// The connection could not be opened.
    ConnectFailed,
    /// All four checks of a cycle have ended, each with or without an error.
    ScanFinished(ScanFailures),
    /// The wait is over.
    Woke,
}

/// View of a [`MonitorEvent`].
pub enum MonitorEventView {
    Connected,
    ConnectFailed,
    ScanFinished(ScanFailuresView),
    Woke,
}

impl View for MonitorEvent {
    type V = MonitorEventView;

    open spec fn view(&self) -> MonitorEventView {
        match self {
            MonitorEvent::Connected => MonitorEventView::Connected,
            MonitorEvent::ConnectFailed => MonitorEventView::ConnectFailed,
            MonitorEvent::ScanFinished(failures) => MonitorEventView::ScanFinished(failures@),
            MonitorEvent::Woke => MonitorEventView::Woke,
        }
    }
}

/// One step of the service: the lines to write now, in order, and the work
/// to do after that.
#[derive(Clone, Debug, PartialEq, Eq)]
pub struct MonitorStep {
    pub lines: Vec<OutputLine>,
    pub next: MonitorAction,
}

/// View of a [`MonitorStep`].
pub struct MonitorStepView {
    pub lines: Seq<OutputLineView>,
    pub next: MonitorAction,
}

impl View for MonitorStep {
    type V = MonitorStepView;

    open spec fn view(&self) -> MonitorStepView {
        MonitorStepView { lines: line_views(self.lines@), next: self.next }
    }
}

/// A line for standard output.
pub open spec fn out_line(text: Seq<char>) -> OutputLineView {
    OutputLineView { stream: OutputStream::Stdout, text }
}

/// A line for standard error.
pub open spec fn err_line(text: Seq<char>) -> OutputLineView {
    OutputLineView { stream: OutputStream::Stderr, text }
}

/// The line that announces the service once the cluster is reached.
pub open spec fn startup_banner() -> Seq<char> {
    "Starting continuous Kubernetes monitoring service in namespace '"@ + NAMESPACE@ + "'"@
}

/// The line that opens a scan cycle.
pub open spec fn cycle_opening() -> Seq<char> {
    "--- Running security checks ---"@
}

/// The line that closes a scan cycle; it ends in a line feed of its own, so
/// that a blank line follows it.
pub open spec fn cycle_closing() -> Seq<char> {
    "--- Security checks complete ---\n"@
}

/// The report of one check of a cycle: a line on standard error if its fetch
/// failed, nothing if it did not.
pub open spec fn failure_report(check: Seq<char>, failure: Option<Seq<char>>) -> Seq<
    OutputLineView,
> {
    match failure {
        Some(description) => seq![err_line("Error in "@ + check + " check: "@ + description)],
        None => seq![],
    }
}

/// The reports of a cycle, in the fixed order of the checks. A failed check
/// does not keep the others from being reported.
pub open spec fn cycle_reports(failures: ScanFailuresView) -> Seq<OutputLineView> {
    failure_report("insecure workloads"@, failures.insecure_workloads) + failure_report(
        "RBAC"@,
        failures.rbac,
    ) + failure_report("network policies"@, failures.network_policies) + failure_report(
        "outdated components"@,
        failures.outdated_components,
    )
}

/// The schedule of the service. From `Connect`, a connection leads to the
/// banner and the first cycle, a failure to `Stop`. A finished scan is
/// followed by its reports, the closing line and a wait of
/// [`POLL_INTERVAL_SECS`]; the end of a wait by the next cycle. An event that
/// does not answer the pending work changes nothing.
pub open spec fn monitor_step_of(pending: MonitorAction, event: MonitorEventView) -> MonitorStepView {
    match (pending, event) {
        (MonitorAction::Connect, MonitorEventView::Connected) => MonitorStepView {
            lines: seq![out_line(startup_banner()), out_line(cycle_opening())],
            next: MonitorAction::Scan,
        },
        (MonitorAction::Connect, MonitorEventView::ConnectFailed) => MonitorStepView {
            lines: seq![],
            next: MonitorAction::Stop,
        },
        (MonitorAction::Scan, MonitorEventView::ScanFinished(failures)) => MonitorStepView {
            lines: cycle_reports(failures).push(out_line(cycle_closing())),
            next: MonitorAction::Sleep(POLL_INTERVAL_SECS),
        },
        (MonitorAction::Sleep(_), MonitorEventView::Woke) => MonitorStepView {
            lines: seq![out_line(cycle_opening())],
            next: MonitorAction::Scan,
        },
        _ => MonitorStepView { lines: seq![], next: pending },
    }
}

/// Appends the report of one check to `lines`.
fn push_failure_report(lines: &mut Vec<OutputLine>, check: &str, failure: &Option<String>)
    ensures
        line_views(final(lines)@) == line_views(old(lines)@) + failure_report(
            check@,
            failure.deep_view(),
        ),
{
    let ghost before = line_views(lines@);
    if let Some(description) = failure {
        let mut text = String::from_str("Error in ");
        text.append(check);
        text.append(" check: ");
        text.append(description.as_str());
        lines.push(OutputLine { stream: OutputStream::Stderr, text });
    }
    assert(line_views(lines@) =~= before + failure_report(check@, failure.deep_view()));
}

/// Appends a line for standard output to `lines`.
fn push_out_line(lines: &mut Vec<OutputLine>, text: String)
    ensures
        line_views(final(lines)@) == line_views(old(lines)@).push(out_line(text@)),
{
    let ghost before = line_views(lines@);
    lines.push(OutputLine { stream: OutputStream::Stdout, text });
    assert(line_views(lines@) =~= before.push(out_line(text@)));
}

/// The work that the service starts with.
pub fn initial_action() -> (action: MonitorAction)
    ensures
        action == MonitorAction::Connect,
{
    MonitorAction::Connect
}

/// Decides what the service writes and does next, given the work it waited
/// for and what came of it.
pub fn monitor_step(pending: MonitorAction, event: &MonitorEvent) -> (step: MonitorStep)
    ensures
        step@ == monitor_step_of(pending, event@),
{
    let mut lines: Vec<OutputLine> = Vec::new();
    assert(line_views(lines@) =~= Seq::empty());
    let next = match (pending, event) {
        (MonitorAction::Connect, MonitorEvent::Connected) => {
            let mut banner = String::from_str(
                "Starting continuous Kubernetes monitoring service in namespace '",
            );
            banner.append(NAMESPACE);
            banner.append("'");
            push_out_line(&mut lines, banner);
            push_out_line(&mut lines, String::from_str("--- Running security checks ---"));
            MonitorAction::Scan
        },
        (MonitorAction::Connect, MonitorEvent::ConnectFailed) => MonitorAction::Stop,
        (MonitorAction::Scan, MonitorEvent::ScanFinished(failures)) => {
            push_failure_report(&mut lines, "insecure workloads", &failures.insecure_workloads);
            push_failure_report(&mut lines, "RBAC", &failures.rbac);
            push_failure_report(&mut lines, "network policies", &failures.network_policies);
            push_failure_report(&mut lines, "outdated components", &failures.outdated_components);
            push_out_line(&mut lines, String::from_str("--- Security checks complete ---\n"));
            MonitorAction::Sleep(POLL_INTERVAL_SECS)
        },
        (MonitorAction::Sleep(_), MonitorEvent::Woke) => {
            push_out_line(&mut lines, String::from_str("--- Running security checks ---"));
            MonitorAction::Scan
        },
        _ => pending,
    };
    let step = MonitorStep { lines, next };
    assert(step@.lines =~= monitor_step_of(pending, event@).lines);
    step
}

} // verus!
