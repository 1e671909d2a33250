//! The provider-managed cluster resource consulted at startup when no
//! cluster URL is configured, and the rule picking the URL out of the
//! discovered clusters.

use vstd::prelude::*;

verus! {

/// One advertised API endpoint of a provider cluster.
pub struct ClusterStatusApiEndpoints {
    pub host: String,
    pub port: i32,
}

pub struct ApiEndpointView {
    pub host: Seq<char>,
    pub port: int,
}

impl View for ClusterStatusApiEndpoints {
    type V = ApiEndpointView;

    open spec fn view(&self) -> ApiEndpointView {
        ApiEndpointView { host: self.host@, port: self.port as int }
    }
}

/// The status of a provider cluster: its advertised endpoints.
pub struct ClusterStatus {
    pub api_endpoints: Vec<ClusterStatusApiEndpoints>,
}

pub struct ClusterStatusView {
    pub api_endpoints: Seq<ApiEndpointView>,
}

impl View for ClusterStatus {
    type V = ClusterStatusView;

    open spec fn view(&self) -> ClusterStatusView {
        ClusterStatusView {
            api_endpoints: self.api_endpoints@.map_values(|e: ClusterStatusApiEndpoints| e@),
        }
    }
}

/// The provider-specific value block of a cluster's spec.
pub struct ProviderSpecValue {
    pub load_balancer_ip: String,
}

/// The provider spec wrapper of a cluster's spec.
pub struct ProviderSpec {
    pub value: ProviderSpecValue,
}

/// The spec of a provider cluster.
pub struct ClusterSpec {
    pub provider_spec: ProviderSpec,
}

/// A discovered provider cluster: its name, spec and status.
pub struct Cluster {
    pub name: Option<String>,
    pub spec: ClusterSpec,
    pub status: Option<ClusterStatus>,
}

pub struct ClusterView {
    pub name: Option<Seq<char>>,
    pub load_balancer_ip: Seq<char>,
    pub status: Option<ClusterStatusView>,
}

impl View for Cluster {
    type V = ClusterView;

    open spec fn view(&self) -> ClusterView {
        ClusterView {
            name: match self.name {
                Some(n) => Some(n@),
                None => None,
            },
            load_balancer_ip: self.spec.provider_spec.value.load_balancer_ip@,
            status: match self.status {
                Some(s) => Some(s@),
                None => None,
            },
        }
    }
}

/// Why no cluster URL could be picked.
#[derive(Debug)]
pub enum ClusterUrlError {
    /// More than one cluster was found and no tie-breaking name is set.
    NameNeeded,
    /// No discovered cluster advertises an endpoint.
    NoneFound,
}

/// The message a URL-selection error carries.
pub open spec fn spec_cluster_url_error_message(e: ClusterUrlError) -> Seq<char> {
    match e {
        ClusterUrlError::NameNeeded => "Found more than one cluster. Please specify the CLUSTER_NAME environment variable"@,
        ClusterUrlError::NoneFound => "Failed to find any cluster resources"@,
    }
}

impl ClusterUrlError {
    /// Renders the error message.
    pub fn message(&self) -> (r: String)
        ensures
            r@ == spec_cluster_url_error_message(*self),
    {
        match self {
            ClusterUrlError::NameNeeded => "Found more than one cluster. Please specify the CLUSTER_NAME environment variable".to_owned(),
            ClusterUrlError::NoneFound => "Failed to find any cluster resources".to_owned(),
        }
    }
}

/// The URL a cluster advertises: the host of its first endpoint, when it
/// has a status with at least one endpoint.
pub open spec fn spec_cluster_url_of(c: ClusterView) -> Option<Seq<char>> {
    match c.status {
        Some(st) => if st.api_endpoints.len() > 0 {
            Some(st.api_endpoints[0].host)
        } else {
            None
        },
        None => None,
    }
}

/// The first cluster carrying the given name, as an index.
pub open spec fn spec_first_named(clusters: Seq<ClusterView>, name: Seq<char>) -> Option<int>
    decreases clusters.len(),
{
    if clusters.len() == 0 {
        None
    } else if clusters[0].name == Some(name) {
        Some(0)
    } else {
        match spec_first_named(clusters.drop_first(), name) {
            Some(i) => Some(i + 1),
            None => None,
        }
    }
}

/// The URL picked from the discovered clusters. With more than one cluster
/// a tie-breaking name is required, and the cluster carrying it is
/// preferred when it advertises an endpoint; otherwise — and always with
/// at most one cluster — the first cluster's advertised endpoint decides.
pub open spec fn spec_select_cluster_url(
    clusters: Seq<ClusterView>,
    cluster_name: Option<Seq<char>>,
) -> Result<Seq<char>, ClusterUrlError> {
    if clusters.len() > 1 && cluster_name is None {
        Err(ClusterUrlError::NameNeeded)
    } else {
        let preferred = if clusters.len() > 1 {
            match spec_first_named(clusters, cluster_name.unwrap()) {
                Some(i) => spec_cluster_url_of(clusters[i]),
                None => None,
            }
        } else {
            None
        };
        match preferred {
            Some(u) => Ok(u),
            None => if clusters.len() > 0 && spec_cluster_url_of(clusters[0]) is Some {
                Ok(spec_cluster_url_of(clusters[0]).unwrap())
            } else {
                Err(ClusterUrlError::NoneFound)
            },
        }
    }
}

fn cluster_url_of(c: &Cluster) -> (r: Option<String>)
    ensures
        (match r {
            Some(u) => Some(u@),
            None => None,
        }) == spec_cluster_url_of(c@),
{
    match &c.status {
        Some(st) => {
            if st.api_endpoints.len() > 0 {
                Some(st.api_endpoints[0].host.clone())
            } else {
                None
            }
        },
        None => None,
    }
}

/// Picks the cluster URL from the discovered provider clusters, with the
/// configured cluster name as tie-breaker when more than one was found.
pub fn select_cluster_url(clusters: &Vec<Cluster>, cluster_name: Option<&String>) -> (r: Result<
    String,
    ClusterUrlError,
>)
    ensures
        (match r {
            Ok(u) => Ok(u@),
            Err(e) => Err(e),
        }) == spec_select_cluster_url(
            clusters@.map_values(|c: Cluster| c@),
            match cluster_name {
                Some(n) => Some(n@),
                None => None,
            },
        ),
{
    let ghost cv = clusters@.map_values(|c: Cluster| c@);
    if clusters.len() > 1 && cluster_name.is_none() {
        return Err(ClusterUrlError::NameNeeded);
    }
    let mut preferred: Option<String> = None;
    if clusters.len() > 1 {
        let name = match cluster_name {
            Some(n) => n,
            None => {
                return Err(ClusterUrlError::NameNeeded);
            },
        };
        let ghost nv = name@;
        proof {
            assert(cv.subrange(0, cv.len() as int) =~= cv);
        }
        let mut i: usize = 0;
        let mut found: Option<usize> = None;
        while i < clusters.len() && found.is_none()
            invariant
                i <= clusters@.len(),
                cv == clusters@.map_values(|c: Cluster| c@),
                nv == name@,
                match found {
                    Some(k) => k < clusters@.len() && spec_first_named(cv, nv) == Some(k as int),
                    None => spec_first_named(cv, nv) == (match spec_first_named(
                        cv.subrange(i as int, cv.len() as int),
                        nv,
                    ) {
                        Some(k) => Some(k + i),
                        None => None::<int>,
                    }),
                },
            decreases clusters@.len() - i,
        {
            proof {
                assert(cv.subrange(i as int, cv.len() as int).drop_first() =~= cv.subrange(
                    i + 1,
                    cv.len() as int,
                ));
                assert(cv.subrange(i as int, cv.len() as int)[0] == cv[i as int]);
            }
            let matches_name: bool = match &clusters[i].name {
                Some(n) => *n == *name,
                None => false,
            };
            if matches_name {
                found = Some(i);
                proof {
                    assert(spec_first_named(cv.subrange(i as int, cv.len() as int), nv) == Some(
                        0int,
                    ));
                }
            }
            i += 1;
        }
        if found.is_none() {
            proof {
                assert(cv.subrange(cv.len() as int, cv.len() as int).len() == 0);
            }
        }
        preferred = match found {
            Some(k) => cluster_url_of(&clusters[k]),
            None => None,
        };
    }
    match preferred {
        Some(u) => Ok(u),
        None => {
            if clusters.len() > 0 {
                match cluster_url_of(&clusters[0]) {
                    Some(u) => Ok(u),
                    None => Err(ClusterUrlError::NoneFound),
                }
            } else {
                Err(ClusterUrlError::NoneFound)
            }
        },
    }
}

} // verus!
