//! The namespaced service identity issued for a request: the first artifact
//! of the bundle, stamped with the universal metadata and an owner
//! back-reference to the request.

use crate::crd::{Request, RequestView};
use crate::meta::{meta_with_owner, request_name_view, spec_meta, ObjectMeta, ObjectMetaView};
use vstd::prelude::*;

verus! {

/// A service identity record, ready to be created on the cluster.
pub struct ServiceAccount {
    pub metadata: ObjectMeta,
    pub automount_service_account_token: bool,
}

pub struct ServiceAccountView {
    pub metadata: ObjectMetaView,
    pub automount_service_account_token: bool,
}

impl View for ServiceAccount {
    type V = ServiceAccountView;

    open spec fn view(&self) -> ServiceAccountView {
        ServiceAccountView {
            metadata: self.metadata@,
            automount_service_account_token: self.automount_service_account_token,
        }
    }
}

/// The service identity issued for `owner`: stamped metadata, owner
/// back-reference to the request, and token automounting on.
pub open spec fn spec_service_account(
    name: Seq<char>,
    namespace: Seq<char>,
    expiry: int,
    owner: RequestView,
) -> ServiceAccountView {
    ServiceAccountView {
        metadata: spec_meta(
            name,
            Some(namespace),
            expiry,
            "kufefe.io/v1"@,
            "Request"@,
            request_name_view(owner),
            owner.metadata.uid,
        ),
        automount_service_account_token: true,
    }
}

impl ServiceAccount {
    /// Builds the service identity record for `owner`.
    pub fn new(name: String, namespace: String, expiry: i64, owner: &Request) -> (r: Self)
        ensures
            r@ == spec_service_account(name@, namespace@, expiry as int, owner@),
    {
        let owner_name = owner.name_any();
        ServiceAccount {
            metadata: meta_with_owner(
                name,
                Some(namespace),
                expiry,
                "kufefe.io/v1",
                "Request",
                owner_name.as_str(),
                owner.metadata.uid.as_ref(),
            ),
            automount_service_account_token: true,
        }
    }
}

} // verus!
