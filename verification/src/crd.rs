//! The access-request resource: its spec, its status record, and the typed
//! status mutators the reconciler chains before writing the status back.

use crate::meta::{owner_name_view, ObjectMeta, ObjectMetaView};
use vstd::prelude::*;

verus! {

/// What the submitter asks for: the cluster-wide role to grant.
pub struct RequestSpec {
    pub role: String,
}

/// The authoritative observable record of one request's reconciliation.
pub struct RequestStatus {
    pub service_account_name: String,
    pub token_name: String,
    pub rolebinding_name: String,
    pub kubeconfig: Option<String>,
    pub ready: bool,
    pub failed: bool,
    pub message: String,
    pub expires_at: Option<i64>,
}

/// The mathematical value of a status record.
pub struct StatusView {
    pub service_account_name: Seq<char>,
    pub token_name: Seq<char>,
    pub rolebinding_name: Seq<char>,
    pub kubeconfig: Option<Seq<char>>,
    pub ready: bool,
    pub failed: bool,
    pub message: Seq<char>,
    pub expires_at: Option<int>,
}

impl View for RequestStatus {
    type V = StatusView;

    open spec fn view(&self) -> StatusView {
        StatusView {
            service_account_name: self.service_account_name@,
            token_name: self.token_name@,
            rolebinding_name: self.rolebinding_name@,
            kubeconfig: match self.kubeconfig {
                Some(k) => Some(k@),
                None => None,
            },
            ready: self.ready,
            failed: self.failed,
            message: self.message@,
            expires_at: match self.expires_at {
                Some(e) => Some(e as int),
                None => None,
            },
        }
    }
}

/// A submitted access request: metadata, what was asked, and the status the
/// controller maintains.
pub struct Request {
    pub metadata: ObjectMeta,
    pub spec: RequestSpec,
    pub status: Option<RequestStatus>,
}

pub struct RequestView {
    pub metadata: ObjectMetaView,
    pub role: Seq<char>,
    pub status: Option<StatusView>,
}

impl View for Request {
    type V = RequestView;

    open spec fn view(&self) -> RequestView {
        RequestView {
            metadata: self.metadata@,
            role: self.spec.role@,
            status: match self.status {
                Some(s) => Some(s@),
                None => None,
            },
        }
    }
}

/// The zero status: no names, no configuration, neither ready nor failed.
pub open spec fn default_status_view() -> StatusView {
    StatusView {
        service_account_name: Seq::empty(),
        token_name: Seq::empty(),
        rolebinding_name: Seq::empty(),
        kubeconfig: None,
        ready: false,
        failed: false,
        message: Seq::empty(),
        expires_at: None,
    }
}

/// The status value a reconciliation continues from: the recorded one when
/// present, the zero status otherwise.
pub open spec fn status_view_or_default(s: Option<StatusView>) -> StatusView {
    match s {
        Some(st) => st,
        None => default_status_view(),
    }
}

impl Default for RequestStatus {
    /// The zero status record.
    fn default() -> (r: Self)
        ensures
            r@ == default_status_view(),
    {
        RequestStatus {
            service_account_name: String::new(),
            token_name: String::new(),
            rolebinding_name: String::new(),
            kubeconfig: None,
            ready: false,
            failed: false,
            message: String::new(),
            expires_at: None,
        }
    }
}

impl RequestStatus {
    /// The status to continue from: the one the cluster already holds when
    /// there is one, the zero status otherwise.
    pub fn new(current: Option<RequestStatus>) -> (r: Self)
        ensures
            r@ == status_view_or_default(match current {
                Some(c) => Some(c@),
                None => None,
            }),
    {
        match current {
            Some(st) => st,
            None => RequestStatus::default(),
        }
    }
}

pub open spec fn with_ready(s: StatusView, ready: bool) -> StatusView {
    StatusView { ready, ..s }
}

pub open spec fn with_failed(s: StatusView, failed: bool) -> StatusView {
    StatusView { failed, ..s }
}

pub open spec fn with_message(s: StatusView, message: Seq<char>) -> StatusView {
    StatusView { message, ..s }
}

pub open spec fn with_account_names(
    s: StatusView,
    service_account_name: Seq<char>,
    token_name: Seq<char>,
    rolebinding_name: Seq<char>,
) -> StatusView {
    StatusView { service_account_name, token_name, rolebinding_name, ..s }
}

pub open spec fn with_expires_at(s: StatusView, expires_at: int) -> StatusView {
    StatusView { expires_at: Some(expires_at), ..s }
}

pub open spec fn with_kubeconfig(s: StatusView, kubeconfig: Seq<char>) -> StatusView {
    StatusView { kubeconfig: Some(kubeconfig), ..s }
}

/// The status the request's view continues from.
pub open spec fn current_status_view(r: RequestView) -> StatusView {
    status_view_or_default(r.status)
}

/// True of a request whose status carries an expiry that lies strictly
/// before `now`.
pub open spec fn spec_expired(r: RequestView, now: int) -> bool {
    match r.status {
        Some(st) => match st.expires_at {
            Some(e) => e < now,
            None => false,
        },
        None => false,
    }
}

/// Each status mutator is idempotent: applying the same mutator twice with
/// the same arguments yields the same status record as applying it once.
pub proof fn lemma_status_mutators_idempotent(
    s: StatusView,
    b: bool,
    t: Seq<char>,
    n1: Seq<char>,
    n2: Seq<char>,
    n3: Seq<char>,
    e: int,
)
    ensures
        with_ready(with_ready(s, b), b) == with_ready(s, b),
        with_failed(with_failed(s, b), b) == with_failed(s, b),
        with_message(with_message(s, t), t) == with_message(s, t),
        with_account_names(with_account_names(s, n1, n2, n3), n1, n2, n3) == with_account_names(
            s,
            n1,
            n2,
            n3,
        ),
        with_expires_at(with_expires_at(s, e), e) == with_expires_at(s, e),
        with_kubeconfig(with_kubeconfig(s, t), t) == with_kubeconfig(s, t),
{
}

impl Request {
    /// A blank request: empty metadata, empty role, no status. The reaper
    /// task holds one only to call the scan methods on.
    pub fn mock() -> (r: Self)
        ensures
            r@.metadata == crate::meta::empty_meta_view(),
            r@.role == Seq::<char>::empty(),
            r@.status is None,
    {
        Request {
            metadata: ObjectMeta::default(),
            spec: RequestSpec { role: String::new() },
            status: None,
        }
    }

    /// The request's name, or the empty string when it has none.
    pub fn name_any(&self) -> (r: String)
        ensures
            r@ == owner_name_view(self),
    {
        match &self.metadata.name {
            Some(n) => n.clone(),
            None => String::new(),
        }
    }

    /// Whether `request` is expired at moment `now`: its status carries an
    /// expiry that lies strictly before `now`.
    pub fn is_expired_at(&self, request: &Request, now: i64) -> (r: bool)
        ensures
            r == spec_expired(request@, now as int),
    {
        if let Some(status) = &request.status {
            if let Some(expires_at) = status.expires_at {
                if expires_at < now {
                    return true;
                }
            }
        }
        false
    }

    /// Whether `request` is expired at the moment of the call. A `true`
    /// answer always rests on an expiry recorded in the status.
    pub fn is_expired(&self, request: &Request) -> (r: bool)
        ensures
            r ==> request@.status is Some && request@.status.unwrap().expires_at is Some,
    {
        let now = crate::expire::now_ts();
        self.is_expired_at(request, now)
    }

    fn ensure_status(&mut self)
        ensures
            final(self).status is Some,
            final(self).status.unwrap()@ == current_status_view(old(self)@),
            final(self).metadata == old(self).metadata,
            final(self).spec == old(self).spec,
    {
        if self.status.is_none() {
            self.status = Some(RequestStatus::default());
        }
    }

    /// Sets the ready flag, starting from the zero status when none exists.
    pub fn ready(&mut self, ready: bool)
        ensures
            final(self)@.status == Some(with_ready(current_status_view(old(self)@), ready)),
            final(self).metadata == old(self).metadata,
            final(self).spec == old(self).spec,
    {
        self.ensure_status();
        let base = self.status.take().unwrap();
        self.status = Some(RequestStatus { ready, ..base });
    }

    /// Sets the failed flag, starting from the zero status when none exists.
    pub fn failed(&mut self, failed: bool)
        ensures
            final(self)@.status == Some(with_failed(current_status_view(old(self)@), failed)),
            final(self).metadata == old(self).metadata,
            final(self).spec == old(self).spec,
    {
        self.ensure_status();
        let base = self.status.take().unwrap();
        self.status = Some(RequestStatus { failed, ..base });
    }

    /// Sets the human-readable message, starting from the zero status when
    /// none exists.
    pub fn message(&mut self, message: String)
        ensures
            final(self)@.status == Some(with_message(current_status_view(old(self)@), message@)),
            final(self).metadata == old(self).metadata,
            final(self).spec == old(self).spec,
    {
        self.ensure_status();
        let base = self.status.take().unwrap();
        self.status = Some(RequestStatus { message, ..base });
    }

    /// Records the three generated artifact names, starting from the zero
    /// status when none exists.
    pub fn account_names(
        &mut self,
        service_account_name: String,
        token_name: String,
        rolebinding_name: String,
    )
        ensures
            final(self)@.status == Some(
                with_account_names(
                    current_status_view(old(self)@),
                    service_account_name@,
                    token_name@,
                    rolebinding_name@,
                ),
            ),
            final(self).metadata == old(self).metadata,
            final(self).spec == old(self).spec,
    {
        self.ensure_status();
        let base = self.status.take().unwrap();
        self.status = Some(
            RequestStatus { service_account_name, token_name, rolebinding_name, ..base },
        );
    }

    /// Sets the expiry; a no-op when the request carries no status yet.
    pub fn expires_at(&mut self, expires_at: i64)
        ensures
            old(self)@.status is None ==> final(self)@ == old(self)@,
            old(self)@.status is Some ==> final(self)@.status == Some(
                with_expires_at(old(self)@.status.unwrap(), expires_at as int),
            ),
            final(self).metadata == old(self).metadata,
            final(self).spec == old(self).spec,
    {
        if let Some(base) = self.status.take() {
            self.status = Some(RequestStatus { expires_at: Some(expires_at), ..base });
        }
    }

    /// Sets the rendered client configuration; a no-op when the request
    /// carries no status yet.
    pub fn kubeconfig(&mut self, kubeconfig: String)
        ensures
            old(self)@.status is None ==> final(self)@ == old(self)@,
            old(self)@.status is Some ==> final(self)@.status == Some(
                with_kubeconfig(old(self)@.status.unwrap(), kubeconfig@),
            ),
            final(self).metadata == old(self).metadata,
            final(self).spec == old(self).spec,
    {
        if let Some(base) = self.status.take() {
            self.status = Some(RequestStatus { kubeconfig: Some(kubeconfig), ..base });
        }
    }
}

} // verus!
