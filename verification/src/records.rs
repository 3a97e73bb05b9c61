//! Snapshots of the cluster objects that the rules read, and their
//! mathematical views.
//!
//! A record holds only the fields a rule looks at. Optional fields stay
//! optional: an unset flag is not the same as a flag set to `false`.

use vstd::prelude::*;

verus! {

/// Per-container security settings. Each flag is absent, `true` or `false`.
/// A profile holds no text, so specifications speak of the profile itself.
#[derive(Clone, Copy, Debug, PartialEq, Eq, Default)]
pub struct SecurityProfile {
    pub run_as_non_root: Option<bool>,
    pub privileged: Option<bool>,
}

/// One container of a workload.
#[derive(Clone, Debug, PartialEq, Eq, Default)]
pub struct ContainerRecord {
    pub name: String,
    pub image: Option<String>,
    pub security_profile: Option<SecurityProfile>,
}

/// A workload (a pod): its name, if it has one, and its containers in order.
#[derive(Clone, Debug, PartialEq, Eq, Default)]
pub struct WorkloadRecord {
    pub name: Option<String>,
    pub containers: Vec<ContainerRecord>,
}

/// The role that a binding grants.
#[derive(Clone, Debug, PartialEq, Eq, Default)]
pub struct RoleReference {
    pub api_group: String,
    pub kind: String,
    pub name: String,
}

/// A role binding: its name, if it has one, and the role it refers to.
#[derive(Clone, Debug, PartialEq, Eq, Default)]
pub struct RoleBindingRecord {
    pub name: Option<String>,
    pub role_ref: RoleReference,
}

/// A network policy. Only its presence in a collection matters to the rules.
#[derive(Clone, Debug, PartialEq, Eq, Default)]
pub struct NetworkPolicyRecord {
    pub name: Option<String>,
}

/// View of a [`ContainerRecord`].
pub struct ContainerView {
    pub name: Seq<char>,
    pub image: Option<Seq<char>>,
    pub security_profile: Option<SecurityProfile>,
}

/// View of a [`WorkloadRecord`].
pub struct WorkloadView {
    pub name: Option<Seq<char>>,
    pub containers: Seq<ContainerView>,
}

/// View of a [`RoleReference`].
pub struct RoleReferenceView {
    pub api_group: Seq<char>,
    pub kind: Seq<char>,
    pub name: Seq<char>,
}

/// View of a [`RoleBindingRecord`].
pub struct RoleBindingView {
    pub name: Option<Seq<char>>,
    pub role_ref: RoleReferenceView,
}

/// View of a [`NetworkPolicyRecord`].
pub struct NetworkPolicyView {
    pub name: Option<Seq<char>>,
}

impl View for ContainerRecord {
    type V = ContainerView;

    open spec fn view(&self) -> ContainerView {
        ContainerView {
            name: self.name@,
            image: self.image.deep_view(),
            security_profile: self.security_profile,
        }
    }
}

impl View for WorkloadRecord {
    type V = WorkloadView;

    open spec fn view(&self) -> WorkloadView {
        WorkloadView {
            name: self.name.deep_view(),
            containers: self.containers@.map_values(|c: ContainerRecord| c@),
        }
    }
}

impl View for RoleReference {
    type V = RoleReferenceView;

    open spec fn view(&self) -> RoleReferenceView {
        RoleReferenceView { api_group: self.api_group@, kind: self.kind@, name: self.name@ }
    }
}

impl View for RoleBindingRecord {
    type V = RoleBindingView;

    open spec fn view(&self) -> RoleBindingView {
        RoleBindingView { name: self.name.deep_view(), role_ref: self.role_ref@ }
    }
}

impl View for NetworkPolicyRecord {
    type V = NetworkPolicyView;

    open spec fn view(&self) -> NetworkPolicyView {
        NetworkPolicyView { name: self.name.deep_view() }
    }
}

/// The views of a run of workloads, in order.
pub open spec fn workload_views(pods: Seq<WorkloadRecord>) -> Seq<WorkloadView> {
    pods.map_values(|w: WorkloadRecord| w@)
}

/// The views of a run of role bindings, in order.
pub open spec fn role_binding_views(bindings: Seq<RoleBindingRecord>) -> Seq<RoleBindingView> {
    bindings.map_values(|b: RoleBindingRecord| b@)
}

} // verus!
