//! The cluster-scoped binding from an issued identity to the requested
//! cluster-wide role: the third artifact of the bundle.

use crate::crd::{Request, RequestView};
use crate::meta::{meta_with_owner, request_name_view, spec_meta, ObjectMeta, ObjectMetaView};
use vstd::prelude::*;

verus! {

/// The subject a binding grants to: the issued identity in its namespace.
pub struct Subject {
    pub kind: String,
    pub name: String,
    pub namespace: Option<String>,
}

pub struct SubjectView {
    pub kind: Seq<char>,
    pub name: Seq<char>,
    pub namespace: Option<Seq<char>>,
}

impl View for Subject {
    type V = SubjectView;

    open spec fn view(&self) -> SubjectView {
        SubjectView {
            kind: self.kind@,
            name: self.name@,
            namespace: match self.namespace {
                Some(n) => Some(n@),
                None => None,
            },
        }
    }
}

/// The cluster-wide role a binding points at.
pub struct RoleRef {
    pub api_group: String,
    pub kind: String,
    pub name: String,
}

pub struct RoleRefView {
    pub api_group: Seq<char>,
    pub kind: Seq<char>,
    pub name: Seq<char>,
}

impl View for RoleRef {
    type V = RoleRefView;

    open spec fn view(&self) -> RoleRefView {
        RoleRefView { api_group: self.api_group@, kind: self.kind@, name: self.name@ }
    }
}

/// A cluster-scoped role binding record, ready to be created on the
/// cluster.
pub struct RoleBinding {
    pub metadata: ObjectMeta,
    pub subjects: Vec<Subject>,
    pub role_ref: RoleRef,
}

pub struct RoleBindingView {
    pub metadata: ObjectMetaView,
    pub subjects: Seq<SubjectView>,
    pub role_ref: RoleRefView,
}

impl View for RoleBinding {
    type V = RoleBindingView;

    open spec fn view(&self) -> RoleBindingView {
        RoleBindingView {
            metadata: self.metadata@,
            subjects: self.subjects@.map_values(|s: Subject| s@),
            role_ref: self.role_ref@,
        }
    }
}

/// The binding issued for `owner`: stamped cluster-scoped metadata, exactly
/// one subject — the identity `sa_name` in `namespace` — and a reference to
/// the requested cluster-wide role.
pub open spec fn spec_role_binding(
    name: Seq<char>,
    role: Seq<char>,
    sa_name: Seq<char>,
    namespace: Seq<char>,
    expiry: int,
    owner: RequestView,
) -> RoleBindingView {
    RoleBindingView {
        metadata: spec_meta(
            name,
            None,
            expiry,
            "kufefe.io/v1"@,
            "Request"@,
            request_name_view(owner),
            owner.metadata.uid,
        ),
        subjects: seq![
            (SubjectView { kind: "ServiceAccount"@, name: sa_name, namespace: Some(namespace) }),
        ],
        role_ref: RoleRefView {
            api_group: "rbac.authorization.k8s.io"@,
            kind: "ClusterRole"@,
            name: role,
        },
    }
}

impl RoleBinding {
    /// Builds the role binding record for `owner`, granting `role` to the
    /// identity `sa_name` in `namespace`.
    pub fn new(
        name: String,
        role: String,
        sa_name: String,
        namespace: String,
        expiry: i64,
        owner: &Request,
    ) -> (r: Self)
        ensures
            r@ == spec_role_binding(
                name@,
                role@,
                sa_name@,
                namespace@,
                expiry as int,
                owner@,
            ),
    {
        let owner_name = owner.name_any();
        let metadata = meta_with_owner(
            name,
            None,
            expiry,
            "kufefe.io/v1",
            "Request",
            owner_name.as_str(),
            owner.metadata.uid.as_ref(),
        );
        let mut subjects: Vec<Subject> = Vec::new();
        subjects.push(
            Subject {
                kind: "ServiceAccount".to_owned(),
                name: sa_name,
                namespace: Some(namespace),
            },
        );
        let r = RoleBinding {
            metadata,
            subjects,
            role_ref: RoleRef {
                api_group: "rbac.authorization.k8s.io".to_owned(),
                kind: "ClusterRole".to_owned(),
                name: role,
            },
        };
        proof {
            let ghost expected = spec_role_binding(
                r@.metadata.name.unwrap(),
                r@.role_ref.name,
                r@.subjects[0].name,
                r@.subjects[0].namespace.unwrap(),
                expiry as int,
                owner@,
            );
            assert(r@.subjects =~= expected.subjects);
        }
        r
    }
}

} // verus!
