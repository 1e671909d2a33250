//! The role gate: a cluster-wide role may be issued only when it carries
//! the eligibility annotation. Checking it first keeps an ineligible
//! request from leaving anything behind on the cluster.

use crate::error::Error;
use crate::meta::{kv_contains, kvs_view};
use vstd::prelude::*;

verus! {

/// The annotation key marking a cluster-wide role as issuance-eligible.
pub open spec fn eligibility_key() -> Seq<char> {
    "kufefe.io/role"@
}

/// The value the eligibility marker must carry.
pub open spec fn eligibility_value() -> Seq<char> {
    "true"@
}

/// Whether a role with the given annotations (when it has any) is
/// issuance-eligible: the marker annotation is present and `true`.
pub open spec fn spec_role_eligible(annotations: Option<Seq<(Seq<char>, Seq<char>)>>) -> bool {
    match annotations {
        Some(m) => kv_contains(m, eligibility_key(), eligibility_value()),
        None => false,
    }
}

/// Whether the fetched role's annotation list carries the eligibility
/// marker.
pub fn role_eligible(annotations: Option<&Vec<(String, String)>>) -> (r: bool)
    ensures
        r == spec_role_eligible(match annotations {
            Some(m) => Some(kvs_view(m@)),
            None => None,
        }),
{
    match annotations {
        Some(m) => {
            let key: String = "kufefe.io/role".to_owned();
            let value: String = "true".to_owned();
            let ghost mv = kvs_view(m@);
            let mut i: usize = 0;
            while i < m.len()
                invariant
                    annotations == Some(m),
                    i <= m@.len(),
                    mv == kvs_view(m@),
                    key@ == eligibility_key(),
                    value@ == eligibility_value(),
                    forall|j: int| 0 <= j < i ==> mv[j] != (eligibility_key(), eligibility_value()),
                decreases m@.len() - i,
            {
                if m[i].0 == key && m[i].1 == value {
                    proof {
                        assert(mv[i as int] == (eligibility_key(), eligibility_value()));
                        assert(kv_contains(mv, eligibility_key(), eligibility_value())) by {
                            assert(0 <= i < mv.len() && mv[i as int] == (
                                eligibility_key(),
                                eligibility_value(),
                            ));
                        }
                    }
                    return true;
                }
                i += 1;
            }
            proof {
                assert(!kv_contains(mv, eligibility_key(), eligibility_value()));
            }
            false
        },
        None => false,
    }
}

/// Verifies that a fetched cluster-wide role is issuance-eligible: `Ok`
/// exactly when its annotations carry the marker, the eligibility error
/// otherwise.
pub fn check_role(annotations: Option<&Vec<(String, String)>>) -> (r: Result<(), Error>)
    ensures
        r is Ok <==> spec_role_eligible(match annotations {
            Some(m) => Some(kvs_view(m@)),
            None => None,
        }),
        r is Err ==> r->Err_0 is RoleNotEligible,
{
    if role_eligible(annotations) {
        Ok(())
    } else {
        Err(Error::RoleNotEligible)
    }
}

} // verus!
