//! The per-request reconciliation state machine: from a submitted request
//! to a ready (or failed) status, one step per platform response. Each step
//! takes the event the surrounding process observed and returns the next
//! state together with the one action to carry out: write a status, fetch
//! the role, create an artifact, or read a token-secret field after a
//! backoff pause. The process performs actions and reports events; every
//! decision in between is made — and verified — here.

use crate::crd::{
    status_view_or_default, with_account_names, with_expires_at, with_failed, with_kubeconfig,
    with_message, with_ready, Request, RequestStatus, RequestView, StatusView,
};
use crate::error::{spec_error_message, Error};
use crate::expire::{expiry_timestamp, spec_expiry_timestamp};
use crate::kubeconfig::{
    base64_std_of, spec_backoff_ms, spec_kubeconfig, spec_yaml, Kubeconfig,
};
use crate::meta::{generate_name, is_generated_name, kvs_view};
use crate::role::{role_eligible, spec_role_eligible};
use crate::rolebinding::{spec_role_binding, RoleBinding};
use crate::serviceaccount::{spec_service_account, ServiceAccount};
use crate::token::{spec_token, Token};
use vstd::prelude::*;
use vstd::utf8::{decode_utf8, valid_utf8};

verus! {

/// The per-process settings a reconciliation needs: where namespaced
/// artifacts go, the URL written into issued configurations, and the
/// time-to-live in minutes.
pub struct ReconcileInput {
    pub namespace: String,
    pub server_url: String,
    pub expire_minutes: i64,
}

pub struct InputView {
    pub namespace: Seq<char>,
    pub server_url: Seq<char>,
    pub expire_minutes: int,
}

impl View for ReconcileInput {
    type V = InputView;

    open spec fn view(&self) -> InputView {
        InputView {
            namespace: self.namespace@,
            server_url: self.server_url@,
            expire_minutes: self.expire_minutes as int,
        }
    }
}

/// The artifact kind a candidate name is probed against, with the same API
/// the creation will use.
#[derive(Clone, Copy)]
pub enum ArtifactKind {
    Identity,
    Token,
    Binding,
}

/// Where a reconciliation stands: which response it awaits, or that it is
/// over.
#[derive(Clone, Copy)]
pub enum Step {
    /// A collision probe for the identity's candidate name is out.
    AwaitSaNameProbe,
    /// A collision probe for the token secret's candidate name is out.
    AwaitTokenNameProbe,
    /// A collision probe for the binding's candidate name is out.
    AwaitRbNameProbe,
    /// The initial status write, carrying the generated names, is out.
    AwaitNamesStatus,
    /// The role fetch is out.
    AwaitRole,
    /// The identity create is out.
    AwaitSa,
    /// The token-secret create is out.
    AwaitToken,
    /// The binding create is out.
    AwaitBinding,
    /// A read of the token secret's certificate field is out.
    AwaitCa,
    /// A read of the token secret's token field is out.
    AwaitTokenData,
    /// The ready status write is out.
    AwaitReadyStatus,
    /// The request reached ready; nothing more to do.
    Done,
    /// The request failed; its status says why. Nothing more to do.
    Failed,
}

/// The state of one reconciliation.
pub struct ReconcileState {
    pub step: Step,
    /// How many of the three artifacts were acknowledged as created.
    pub artifacts: u64,
    /// Read attempts spent on the secret field currently awaited.
    pub attempt: u64,
    /// The candidate name the running collision probe is about.
    pub pending_name: String,
    pub sa_name: String,
    pub token_name: String,
    pub rb_name: String,
    /// The uid the platform assigned to the created identity.
    pub sa_uid: Option<String>,
    pub expire_at: i64,
    /// The certificate bytes, once read and validated.
    pub ca: Option<Vec<u8>>,
    /// The status record as last written (or about to be written).
    pub status: RequestStatus,
}

pub struct StateView {
    pub step: Step,
    pub artifacts: int,
    pub attempt: int,
    pub pending_name: Seq<char>,
    pub sa_name: Seq<char>,
    pub token_name: Seq<char>,
    pub rb_name: Seq<char>,
    pub sa_uid: Option<Seq<char>>,
    pub expire_at: int,
    pub ca: Option<Seq<u8>>,
    pub status: StatusView,
}

impl View for ReconcileState {
    type V = StateView;

    open spec fn view(&self) -> StateView {
        StateView {
            step: self.step,
            artifacts: self.artifacts as int,
            attempt: self.attempt as int,
            pending_name: self.pending_name@,
            sa_name: self.sa_name@,
            token_name: self.token_name@,
            rb_name: self.rb_name@,
            sa_uid: match self.sa_uid {
                Some(u) => Some(u@),
                None => None,
            },
            expire_at: self.expire_at as int,
            ca: match self.ca {
                Some(c) => Some(c@),
                None => None,
            },
            status: self.status@,
        }
    }
}

/// What the surrounding process observed since the last step.
pub enum Event {
    /// Whether the probed candidate name is already taken by an object of
    /// the probed kind.
    NameProbed(bool),
    /// The outcome of the status write last requested.
    StatusWritten(Result<(), String>),
    /// The requested role, as its annotation list — `None` when the role
    /// object carries no annotations — or the fetch error (a missing role
    /// included).
    RoleFetched(Result<Option<Vec<(String, String)>>, String>),
    /// The outcome of the identity create: the uid the platform assigned,
    /// or the error.
    SaCreated(Result<Option<String>, String>),
    /// The outcome of the token-secret create.
    TokenCreated(Result<(), String>),
    /// The outcome of the binding create.
    BindingCreated(Result<(), String>),
    /// The outcome of reading the awaited token-secret field.
    SecretField(Result<Vec<u8>, String>),
}

pub enum EventView {
    NameProbed(bool),
    StatusWritten(Result<(), Seq<char>>),
    RoleFetched(Result<Option<Seq<(Seq<char>, Seq<char>)>>, Seq<char>>),
    SaCreated(Result<Option<Seq<char>>, Seq<char>>),
    TokenCreated(Result<(), Seq<char>>),
    BindingCreated(Result<(), Seq<char>>),
    SecretField(Result<Seq<u8>, Seq<char>>),
}

impl View for Event {
    type V = EventView;

    open spec fn view(&self) -> EventView {
        match self {
            Event::NameProbed(taken) => EventView::NameProbed(*taken),
            Event::StatusWritten(r) => EventView::StatusWritten(match r {
                Ok(_) => Ok(()),
                Err(m) => Err(m@),
            }),
            Event::RoleFetched(r) => EventView::RoleFetched(match r {
                Ok(Some(a)) => Ok(Some(kvs_view(a@))),
                Ok(None) => Ok(None),
                Err(m) => Err(m@),
            }),
            Event::SaCreated(r) => EventView::SaCreated(match r {
                Ok(Some(u)) => Ok(Some(u@)),
                Ok(None) => Ok(None),
                Err(m) => Err(m@),
            }),
            Event::TokenCreated(r) => EventView::TokenCreated(match r {
                Ok(_) => Ok(()),
                Err(m) => Err(m@),
            }),
            Event::BindingCreated(r) => EventView::BindingCreated(match r {
                Ok(_) => Ok(()),
                Err(m) => Err(m@),
            }),
            Event::SecretField(r) => EventView::SecretField(match r {
                Ok(b) => Ok(b@),
                Err(m) => Err(m@),
            }),
        }
    }
}

/// The one thing the surrounding process must do next.
pub enum Action {
    /// Ask, with the API the creation will use, whether an object of the
    /// given kind already carries the candidate name.
    ProbeName { kind: ArtifactKind, name: String },
    /// Replace the request's status subresource with this record.
    UpdateStatus(RequestStatus),
    /// Fetch the named cluster-wide role.
    GetRole(String),
    /// Create the identity.
    CreateServiceAccount(ServiceAccount),
    /// Create the token secret.
    CreateToken(Token),
    /// Create the binding.
    CreateRoleBinding(RoleBinding),
    /// Pause `after_ms` milliseconds, then read field `key` of the named
    /// secret.
    FetchSecretField { secret: String, key: String, after_ms: u64 },
    /// The reconciliation is over; nothing to do.
    Finish,
}

pub enum ActionView {
    ProbeName { kind: ArtifactKind, name: Seq<char> },
    UpdateStatus(StatusView),
    GetRole(Seq<char>),
    CreateServiceAccount(crate::serviceaccount::ServiceAccountView),
    CreateToken(crate::token::TokenView),
    CreateRoleBinding(crate::rolebinding::RoleBindingView),
    FetchSecretField { secret: Seq<char>, key: Seq<char>, after_ms: int },
    Finish,
}

impl View for Action {
    type V = ActionView;

    open spec fn view(&self) -> ActionView {
        match self {
            Action::ProbeName { kind, name } => ActionView::ProbeName {
                kind: *kind,
                name: name@,
            },
            Action::UpdateStatus(s) => ActionView::UpdateStatus(s@),
            Action::GetRole(r) => ActionView::GetRole(r@),
            Action::CreateServiceAccount(s) => ActionView::CreateServiceAccount(s@),
            Action::CreateToken(t) => ActionView::CreateToken(t@),
            Action::CreateRoleBinding(b) => ActionView::CreateRoleBinding(b@),
            Action::FetchSecretField { secret, key, after_ms } => ActionView::FetchSecretField {
                secret: secret@,
                key: key@,
                after_ms: *after_ms as int,
            },
            Action::Finish => ActionView::Finish,
        }
    }
}

/// The status written first: the three generated names, the expiry, not
/// ready, not failed, and the name-generation note.
pub open spec fn spec_initial_status(
    base: StatusView,
    sa: Seq<char>,
    tk: Seq<char>,
    rb: Seq<char>,
    expire_at: int,
) -> StatusView {
    with_message(
        with_failed(
            with_ready(with_expires_at(with_account_names(base, sa, tk, rb), expire_at), false),
            false,
        ),
        "Generated names for resources"@,
    )
}

/// The status written when a reconciliation fails: the failure message,
/// failed set, ready cleared.
pub open spec fn spec_failed_status(base: StatusView, msg: Seq<char>) -> StatusView {
    with_failed(with_message(with_ready(base, false), msg), true)
}

/// The status written when a reconciliation completes: ready set, the
/// rendered configuration, and the completion note.
pub open spec fn spec_ready_status(base: StatusView, kubeconfig: Seq<char>) -> StatusView {
    with_message(with_kubeconfig(with_ready(base, true), kubeconfig), "Completed"@)
}

/// The bound every stored certificate payload respects, far beyond any real
/// secret, so that encoding cannot overflow a length computation.
pub open spec fn ca_len_limit() -> int {
    0x1000_0000_0000_0000
}

/// A reachable machine state: the attempt counter within its budget, the
/// artifact count matching the phase, the expiry within the stamp's range
/// and recorded in the status, the ready and failed flags matching the
/// phase — never both set — and, once the certificate is read, a valid
/// payload in hand.
pub open spec fn wf_state(s: StateView) -> bool {
    &&& 0 <= s.attempt <= 30
    &&& match s.step {
        Step::AwaitSaNameProbe | Step::AwaitTokenNameProbe | Step::AwaitRbNameProbe
            | Step::AwaitNamesStatus | Step::AwaitRole | Step::AwaitSa => s.artifacts == 0,
        Step::AwaitToken => s.artifacts == 1,
        Step::AwaitBinding => s.artifacts == 2,
        Step::AwaitCa | Step::AwaitTokenData | Step::AwaitReadyStatus | Step::Done => s.artifacts
            == 3,
        Step::Failed => 0 <= s.artifacts <= 3,
    }
    &&& i64::MIN <= s.expire_at <= i64::MAX
    &&& s.status.expires_at == Some(s.expire_at)
    &&& match s.step {
        Step::AwaitSaNameProbe | Step::AwaitTokenNameProbe | Step::AwaitRbNameProbe
            | Step::Failed => true,
        _ => s.status.service_account_name == s.sa_name && s.status.token_name == s.token_name
            && s.status.rolebinding_name == s.rb_name,
    }
    &&& match s.step {
        Step::AwaitReadyStatus | Step::Done => s.status.ready && !s.status.failed
            && s.status.kubeconfig is Some,
        Step::Failed => s.status.failed && !s.status.ready,
        _ => !s.status.ready && !s.status.failed,
    }
    &&& s.step is AwaitTokenData ==> match s.ca {
        Some(c) => c.len() <= ca_len_limit(),
        None => false,
    }
}

impl RequestStatus {
    /// A field-for-field copy of the record.
    fn clone_status(&self) -> (r: RequestStatus)
        ensures
            r@ == self@,
    {
        RequestStatus {
            service_account_name: self.service_account_name.clone(),
            token_name: self.token_name.clone(),
            rolebinding_name: self.rolebinding_name.clone(),
            kubeconfig: match &self.kubeconfig {
                Some(k) => Some(k.clone()),
                None => None,
            },
            ready: self.ready,
            failed: self.failed,
            message: self.message.clone(),
            expires_at: self.expires_at,
        }
    }
}

/// Begins a reconciliation at clock value `now`: stamps the expiry as `now`
/// plus the time-to-live, draws the first candidate name for the identity,
/// and asks for its collision probe.
pub fn reconcile_init(owner: &Request, input: &ReconcileInput, now: i64) -> (r: (
    ReconcileState,
    Action,
))
    ensures
        r.0.step is AwaitSaNameProbe,
        r.0@.artifacts == 0,
        r.0@.attempt == 0,
        r.0@.sa_uid is None,
        r.0@.ca is None,
        is_generated_name(r.0@.pending_name),
        r.0@.expire_at == spec_expiry_timestamp(now as int, input@.expire_minutes),
        r.0@.status == with_failed(
            with_ready(
                with_expires_at(status_view_or_default(owner@.status), r.0@.expire_at),
                false,
            ),
            false,
        ),
        r.1@ == (ActionView::ProbeName { kind: ArtifactKind::Identity, name: r.0@.pending_name }),
        wf_state(r.0@),
{
    let pending_name = generate_name();
    let expire_at = expiry_timestamp(now, input.expire_minutes);
    let base = match &owner.status {
        Some(s) => s.clone_status(),
        None => RequestStatus::default(),
    };
    let status = RequestStatus { expires_at: Some(expire_at), ready: false, failed: false, ..base };
    let state = ReconcileState {
        step: Step::AwaitSaNameProbe,
        artifacts: 0,
        attempt: 0,
        pending_name: pending_name.clone(),
        sa_name: String::new(),
        token_name: String::new(),
        rb_name: String::new(),
        sa_uid: None,
        expire_at,
        ca: None,
        status,
    };
    let action = Action::ProbeName { kind: ArtifactKind::Identity, name: pending_name };
    (state, action)
}

/// Whether this state and event are a collision-probe answer that calls for
/// a freshly drawn candidate name: the probed name was taken, or a free
/// name was banked and the next kind's probe begins.
pub open spec fn name_probe_case(s: StateView, e: EventView) -> bool {
    match e {
        EventView::NameProbed(taken) => match s.step {
            Step::AwaitSaNameProbe | Step::AwaitTokenNameProbe => true,
            Step::AwaitRbNameProbe => taken,
            _ => false,
        },
        _ => false,
    }
}

/// What a collision-probe answer with a fresh candidate leads to: a taken
/// name is redrawn and probed again; a free name is banked as the artifact's
/// name and the next kind's probe goes out with a fresh candidate. In both
/// outcomes only the freshly drawn candidate is left open — it is random —
/// and it matches the generated-name pattern.
pub open spec fn name_probe_post(
    s: StateView,
    e: EventView,
    next: StateView,
    action: ActionView,
) -> bool {
    &&& is_generated_name(next.pending_name)
    &&& match (s.step, e) {
        (Step::AwaitSaNameProbe, EventView::NameProbed(true)) => next == (StateView {
            pending_name: next.pending_name,
            ..s
        }) && action == (ActionView::ProbeName {
            kind: ArtifactKind::Identity,
            name: next.pending_name,
        }),
        (Step::AwaitSaNameProbe, EventView::NameProbed(false)) => next == (StateView {
            step: Step::AwaitTokenNameProbe,
            sa_name: s.pending_name,
            pending_name: next.pending_name,
            ..s
        }) && action == (ActionView::ProbeName {
            kind: ArtifactKind::Token,
            name: next.pending_name,
        }),
        (Step::AwaitTokenNameProbe, EventView::NameProbed(true)) => next == (StateView {
            pending_name: next.pending_name,
            ..s
        }) && action == (ActionView::ProbeName {
            kind: ArtifactKind::Token,
            name: next.pending_name,
        }),
        (Step::AwaitTokenNameProbe, EventView::NameProbed(false)) => next == (StateView {
            step: Step::AwaitRbNameProbe,
            token_name: s.pending_name,
            pending_name: next.pending_name,
            ..s
        }) && action == (ActionView::ProbeName {
            kind: ArtifactKind::Binding,
            name: next.pending_name,
        }),
        (Step::AwaitRbNameProbe, EventView::NameProbed(true)) => next == (StateView {
            pending_name: next.pending_name,
            ..s
        }) && action == (ActionView::ProbeName {
            kind: ArtifactKind::Binding,
            name: next.pending_name,
        }),
        _ => false,
    }
}

/// A reconciliation halting on `msg`: the status gets the message, failed
/// set and ready cleared, and that record is written in one update.
pub open spec fn spec_fail(s: StateView, msg: Seq<char>) -> (StateView, ActionView) {
    let st = spec_failed_status(s.status, msg);
    ((StateView { step: Step::Failed, status: st, ..s }), ActionView::UpdateStatus(st))
}

/// A failed read of secret field `key`: retried after the backoff pause
/// until the attempt budget is spent, then the reconciliation halts on the
/// last message.
pub open spec fn spec_retry(s: StateView, key: Seq<char>, msg: Seq<char>) -> (
    StateView,
    ActionView,
) {
    if s.attempt >= 29 {
        spec_fail(s, msg)
    } else {
        (
            (StateView { attempt: s.attempt + 1, ..s }),
            ActionView::FetchSecretField {
                secret: s.token_name,
                key: key,
                after_ms: spec_backoff_ms(s.attempt as nat) as int,
            },
        )
    }
}

/// One step of the state machine: from the awaited response to the next
/// state and the next action. Success walks the request through role
/// validation, the three creates, the two secret reads and the ready
/// write; any failure halts with one failed-status write; a failed secret
/// read is retried within the attempt budget.
pub open spec fn spec_reconcile_step(
    owner: RequestView,
    input: InputView,
    s: StateView,
    e: EventView,
) -> (StateView, ActionView) {
    match s.step {
        // probe answers that draw a fresh random candidate stand apart, in
        // `name_probe_post`; only the probe that banks the last name is a
        // function of the state
        Step::AwaitSaNameProbe => (s, ActionView::Finish),
        Step::AwaitTokenNameProbe => (s, ActionView::Finish),
        Step::AwaitRbNameProbe => match e {
            EventView::NameProbed(false) => {
                let st = spec_initial_status(
                    s.status,
                    s.sa_name,
                    s.token_name,
                    s.pending_name,
                    s.expire_at,
                );
                (
                    (StateView {
                        step: Step::AwaitNamesStatus,
                        rb_name: s.pending_name,
                        status: st,
                        ..s
                    }),
                    ActionView::UpdateStatus(st),
                )
            },
            _ => (s, ActionView::Finish),
        },
        Step::AwaitNamesStatus => match e {
            EventView::StatusWritten(Ok(_)) => (
                (StateView { step: Step::AwaitRole, ..s }),
                ActionView::GetRole(owner.role),
            ),
            EventView::StatusWritten(Err(m)) => spec_fail(s, m),
            _ => (s, ActionView::Finish),
        },
        Step::AwaitRole => match e {
            EventView::RoleFetched(Ok(annotations)) => if spec_role_eligible(annotations) {
                (
                    (StateView { step: Step::AwaitSa, ..s }),
                    ActionView::CreateServiceAccount(
                        spec_service_account(s.sa_name, input.namespace, s.expire_at, owner),
                    ),
                )
            } else {
                spec_fail(s, spec_error_message(Error::RoleNotEligible))
            },
            EventView::RoleFetched(Err(m)) => spec_fail(s, m),
            _ => (s, ActionView::Finish),
        },
        Step::AwaitSa => match e {
            EventView::SaCreated(Ok(uid)) => (
                (StateView { step: Step::AwaitToken, artifacts: s.artifacts + 1, sa_uid: uid, ..s }),
                ActionView::CreateToken(
                    spec_token(s.token_name, input.namespace, s.expire_at, s.sa_name, uid),
                ),
            ),
            EventView::SaCreated(Err(m)) => spec_fail(s, m),
            _ => (s, ActionView::Finish),
        },
        Step::AwaitToken => match e {
            EventView::TokenCreated(Ok(_)) => (
                (StateView { step: Step::AwaitBinding, artifacts: s.artifacts + 1, ..s }),
                ActionView::CreateRoleBinding(
                    spec_role_binding(
                        s.rb_name,
                        owner.role,
                        s.sa_name,
                        input.namespace,
                        s.expire_at,
                        owner,
                    ),
                ),
            ),
            EventView::TokenCreated(Err(m)) => spec_fail(s, m),
            _ => (s, ActionView::Finish),
        },
        Step::AwaitBinding => match e {
            EventView::BindingCreated(Ok(_)) => (
                (StateView { step: Step::AwaitCa, artifacts: s.artifacts + 1, attempt: 0, ..s }),
                ActionView::FetchSecretField {
                    secret: s.token_name,
                    key: "ca.crt"@,
                    after_ms: 0,
                },
            ),
            EventView::BindingCreated(Err(m)) => spec_fail(s, m),
            _ => (s, ActionView::Finish),
        },
        Step::AwaitCa => match e {
            EventView::SecretField(Ok(b)) => (
                (StateView { step: Step::AwaitTokenData, ca: Some(b), attempt: 0, ..s }),
                ActionView::FetchSecretField { secret: s.token_name, key: "token"@, after_ms: 0 },
            ),
            EventView::SecretField(Err(m)) => spec_retry(s, "ca.crt"@, m),
            _ => (s, ActionView::Finish),
        },
        Step::AwaitTokenData => match e {
            EventView::SecretField(Ok(b)) => if valid_utf8(b) {
                let yaml = spec_yaml(
                    spec_kubeconfig(
                        s.sa_name,
                        base64_std_of(s.ca.unwrap()),
                        input.server_url,
                        decode_utf8(b),
                    ),
                );
                let st = spec_ready_status(s.status, yaml);
                (
                    (StateView { step: Step::AwaitReadyStatus, status: st, ..s }),
                    ActionView::UpdateStatus(st),
                )
            } else {
                // a token that is not text is not recovered locally: no retry
                spec_fail(s, "Could not parse "@ + "token"@)
            },
            EventView::SecretField(Err(m)) => spec_retry(s, "token"@, m),
            _ => (s, ActionView::Finish),
        },
        Step::AwaitReadyStatus => match e {
            EventView::StatusWritten(Ok(_)) => (
                (StateView { step: Step::Done, ..s }),
                ActionView::Finish,
            ),
            EventView::StatusWritten(Err(m)) => spec_fail(s, m),
            _ => (s, ActionView::Finish),
        },
        Step::Done => (s, ActionView::Finish),
        Step::Failed => (s, ActionView::Finish),
    }
}

/// What a step demands of the event: a certificate payload about to be
/// stored stays within the length bound.
pub open spec fn event_fits(s: StateView, e: EventView) -> bool {
    match e {
        EventView::SecretField(Ok(b)) => s.step is AwaitCa ==> b.len() <= ca_len_limit(),
        _ => true,
    }
}

fn clone_bytes(v: &Vec<u8>) -> (r: Vec<u8>)
    ensures
        r@ == v@,
{
    let mut r: Vec<u8> = Vec::new();
    let mut i: usize = 0;
    while i < v.len()
        invariant
            i <= v@.len(),
            r@ =~= v@.take(i as int),
        decreases v@.len() - i,
    {
        r.push(v[i]);
        i += 1;
    }
    proof {
        assert(v@.take(v@.len() as int) =~= v@);
    }
    r
}

fn do_fail(state: ReconcileState, msg: String) -> (r: (ReconcileState, Action))
    ensures
        (r.0@, r.1@) == spec_fail(state@, msg@),
        wf_state(state@) ==> wf_state(r.0@),
{
    let status = RequestStatus { ready: false, failed: true, message: msg, ..state.status };
    let state = ReconcileState { step: Step::Failed, status, ..state };
    let action = Action::UpdateStatus(state.status.clone_status());
    (state, action)
}

fn do_retry(state: ReconcileState, key: &str, msg: String) -> (r: (ReconcileState, Action))
    requires
        state@.attempt <= 30,
    ensures
        (r.0@, r.1@) == spec_retry(state@, key@, msg@),
        wf_state(state@) ==> wf_state(r.0@),
{
    if state.attempt >= 29 {
        do_fail(state, msg)
    } else {
        let after_ms = match crate::kubeconfig::retry_delay_ms(state.attempt) {
            Some(d) => d,
            None => unreached(),
        };
        let state = ReconcileState { attempt: state.attempt + 1, ..state };
        let action = Action::FetchSecretField {
            secret: state.token_name.clone(),
            key: key.to_owned(),
            after_ms,
        };
        (state, action)
    }
}

/// Performs one step of the reconciliation: hands the machine the event the
/// surrounding process observed, and returns the next state and the next
/// action to carry out.
pub fn reconcile_step(
    owner: &Request,
    input: &ReconcileInput,
    state: ReconcileState,
    event: Event,
) -> (r: (ReconcileState, Action))
    requires
        wf_state(state@),
        event_fits(state@, event@),
    ensures
        name_probe_case(state@, event@) ==> name_probe_post(state@, event@, r.0@, r.1@),
        !name_probe_case(state@, event@) ==> (r.0@, r.1@) == spec_reconcile_step(
            owner@,
            input@,
            state@,
            event@,
        ),
        wf_state(r.0@),
{
    match state.step {
        Step::AwaitSaNameProbe => match event {
            Event::NameProbed(taken) => {
                let fresh = generate_name();
                if taken {
                    let action = Action::ProbeName {
                        kind: ArtifactKind::Identity,
                        name: fresh.clone(),
                    };
                    (ReconcileState { pending_name: fresh, ..state }, action)
                } else {
                    let action = Action::ProbeName {
                        kind: ArtifactKind::Token,
                        name: fresh.clone(),
                    };
                    (
                        ReconcileState {
                            step: Step::AwaitTokenNameProbe,
                            sa_name: state.pending_name.clone(),
                            pending_name: fresh,
                            ..state
                        },
                        action,
                    )
                }
            },
            _ => (state, Action::Finish),
        },
        Step::AwaitTokenNameProbe => match event {
            Event::NameProbed(taken) => {
                let fresh = generate_name();
                if taken {
                    let action = Action::ProbeName {
                        kind: ArtifactKind::Token,
                        name: fresh.clone(),
                    };
                    (ReconcileState { pending_name: fresh, ..state }, action)
                } else {
                    let action = Action::ProbeName {
                        kind: ArtifactKind::Binding,
                        name: fresh.clone(),
                    };
                    (
                        ReconcileState {
                            step: Step::AwaitRbNameProbe,
                            token_name: state.pending_name.clone(),
                            pending_name: fresh,
                            ..state
                        },
                        action,
                    )
                }
            },
            _ => (state, Action::Finish),
        },
        Step::AwaitRbNameProbe => match event {
            Event::NameProbed(taken) => {
                if taken {
                    let fresh = generate_name();
                    let action = Action::ProbeName {
                        kind: ArtifactKind::Binding,
                        name: fresh.clone(),
                    };
                    (ReconcileState { pending_name: fresh, ..state }, action)
                } else {
                    let status = RequestStatus {
                        service_account_name: state.sa_name.clone(),
                        token_name: state.token_name.clone(),
                        rolebinding_name: state.pending_name.clone(),
                        kubeconfig: match &state.status.kubeconfig {
                            Some(k) => Some(k.clone()),
                            None => None,
                        },
                        ready: false,
                        failed: false,
                        message: "Generated names for resources".to_owned(),
                        expires_at: Some(state.expire_at),
                    };
                    let new_state = ReconcileState {
                        step: Step::AwaitNamesStatus,
                        rb_name: state.pending_name.clone(),
                        status,
                        ..state
                    };
                    let action = Action::UpdateStatus(new_state.status.clone_status());
                    (new_state, action)
                }
            },
            _ => (state, Action::Finish),
        },
        Step::AwaitNamesStatus => match event {
            Event::StatusWritten(Ok(_)) => {
                let action = Action::GetRole(owner.spec.role.clone());
                (ReconcileState { step: Step::AwaitRole, ..state }, action)
            },
            Event::StatusWritten(Err(m)) => do_fail(state, m),
            _ => (state, Action::Finish),
        },
        Step::AwaitRole => match event {
            Event::RoleFetched(Ok(annotations)) => {
                if role_eligible(annotations.as_ref()) {
                    let record = ServiceAccount::new(
                        state.sa_name.clone(),
                        input.namespace.clone(),
                        state.expire_at,
                        owner,
                    );
                    (
                        ReconcileState { step: Step::AwaitSa, ..state },
                        Action::CreateServiceAccount(record),
                    )
                } else {
                    do_fail(state, Error::RoleNotEligible.message())
                }
            },
            Event::RoleFetched(Err(m)) => do_fail(state, m),
            _ => (state, Action::Finish),
        },
        Step::AwaitSa => match event {
            Event::SaCreated(Ok(uid)) => {
                let record = Token::new(
                    state.token_name.clone(),
                    input.namespace.clone(),
                    state.expire_at,
                    state.sa_name.clone(),
                    uid.as_ref(),
                );
                (
                    ReconcileState {
                        step: Step::AwaitToken,
                        artifacts: state.artifacts + 1,
                        sa_uid: uid,
                        ..state
                    },
                    Action::CreateToken(record),
                )
            },
            Event::SaCreated(Err(m)) => do_fail(state, m),
            _ => (state, Action::Finish),
        },
        Step::AwaitToken => match event {
            Event::TokenCreated(Ok(_)) => {
                let record = RoleBinding::new(
                    state.rb_name.clone(),
                    owner.spec.role.clone(),
                    state.sa_name.clone(),
                    input.namespace.clone(),
                    state.expire_at,
                    owner,
                );
                (
                    ReconcileState {
                        step: Step::AwaitBinding,
                        artifacts: state.artifacts + 1,
                        ..state
                    },
                    Action::CreateRoleBinding(record),
                )
            },
            Event::TokenCreated(Err(m)) => do_fail(state, m),
            _ => (state, Action::Finish),
        },
        Step::AwaitBinding => match event {
            Event::BindingCreated(Ok(_)) => {
                let action = Action::FetchSecretField {
                    secret: state.token_name.clone(),
                    key: "ca.crt".to_owned(),
                    after_ms: 0,
                };
                (
                    ReconcileState {
                        step: Step::AwaitCa,
                        artifacts: state.artifacts + 1,
                        attempt: 0,
                        ..state
                    },
                    action,
                )
            },
            Event::BindingCreated(Err(m)) => do_fail(state, m),
            _ => (state, Action::Finish),
        },
        Step::AwaitCa => match event {
            Event::SecretField(Ok(bytes)) => {
                let action = Action::FetchSecretField {
                    secret: state.token_name.clone(),
                    key: "token".to_owned(),
                    after_ms: 0,
                };
                (
                    ReconcileState {
                        step: Step::AwaitTokenData,
                        ca: Some(bytes),
                        attempt: 0,
                        ..state
                    },
                    action,
                )
            },
            Event::SecretField(Err(m)) => do_retry(state, "ca.crt", m),
            _ => (state, Action::Finish),
        },
        Step::AwaitTokenData => match event {
            Event::SecretField(Ok(bytes)) => {
                let ca = match &state.ca {
                    Some(c) => clone_bytes(c),
                    None => unreached(),
                };
                match Kubeconfig::new(
                    Some(state.sa_name.clone()),
                    ca,
                    bytes,
                    input.server_url.clone(),
                ) {
                    Ok(config) => {
                        let yaml = config.to_yaml();
                        let status = RequestStatus {
                            ready: true,
                            kubeconfig: Some(yaml),
                            message: "Completed".to_owned(),
                            ..state.status
                        };
                        let state = ReconcileState {
                            step: Step::AwaitReadyStatus,
                            status,
                            ..state
                        };
                        let action = Action::UpdateStatus(state.status.clone_status());
                        (state, action)
                    },
                    Err(e) => {
                        let msg = e.message();
                        do_fail(state, msg)
                    },
                }
            },
            Event::SecretField(Err(m)) => do_retry(state, "token", m),
            _ => (state, Action::Finish),
        },
        Step::AwaitReadyStatus => match event {
            Event::StatusWritten(Ok(_)) => (
                ReconcileState { step: Step::Done, ..state },
                Action::Finish,
            ),
            Event::StatusWritten(Err(m)) => do_fail(state, m),
            _ => (state, Action::Finish),
        },
        Step::Done => (state, Action::Finish),
        Step::Failed => (state, Action::Finish),
    }
}

/// Every step of the model preserves well-formedness: however the process
/// drives a reconciliation, the status record in hand never carries ready
/// and failed together, a ready status always carries a configuration and
/// the expiry, and the artifact count always matches the phase.
pub proof fn lemma_step_preserves_wf(
    owner: RequestView,
    input: InputView,
    s: StateView,
    e: EventView,
)
    requires
        wf_state(s),
        event_fits(s, e),
    ensures
        wf_state(spec_reconcile_step(owner, input, s, e).0),
{
}

/// The expiry a reconciliation records lies strictly past the request's
/// creation: for any reachable state whose stamp was computed at a clock
/// value `now` — as `reconcile_init` ensures — with a time-to-live of at
/// least one minute, the status carries `expires_at` strictly greater than
/// any creation moment up to `now`.
pub proof fn lemma_recorded_expiry_past_creation(
    s: StateView,
    now: int,
    minutes: int,
    creation: int,
)
    requires
        wf_state(s),
        s.expire_at == crate::expire::spec_expiry_timestamp(now, minutes),
        minutes >= 1,
        creation <= now,
        creation < i64::MAX,
        i64::MIN <= now <= i64::MAX,
    ensures
        s.status.expires_at == Some(s.expire_at),
        s.expire_at > creation,
{
    crate::expire::lemma_expiry_after_creation(now, minutes, creation);
}

/// A failed reconciliation rolls nothing back and announces itself at once:
/// whenever a step fails, the artifact count is unchanged — failing at the
/// identity, token or binding create leaves zero, one or two artifacts in
/// place — and the one action is a single status write with `failed` set
/// and `ready` cleared.
pub proof fn lemma_failure_no_rollback(
    owner: RequestView,
    input: InputView,
    s: StateView,
    e: EventView,
)
    requires
        wf_state(s),
    ensures
        ({
            let (next, action) = spec_reconcile_step(owner, input, s, e);
            &&& (next.step is Failed && !(s.step is Failed)) ==> next.artifacts == s.artifacts
                && (action matches ActionView::UpdateStatus(st) && st.failed && !st.ready)
            &&& (s.step is AwaitSa && next.step is Failed) ==> next.artifacts == 0
            &&& (s.step is AwaitToken && next.step is Failed) ==> next.artifacts == 1
            &&& (s.step is AwaitBinding && next.step is Failed) ==> next.artifacts == 2
        }),
{
}

/// A status write with `ready` set is complete: it carries the rendered
/// configuration of a document with exactly one cluster, one context and
/// one user entry, it carries the reconciliation's expiry stamp, `failed`
/// is cleared, and all three artifacts have been created. No write ever
/// carries `ready` and `failed` together.
pub proof fn lemma_ready_status_complete(
    owner: RequestView,
    input: InputView,
    s: StateView,
    e: EventView,
)
    requires
        wf_state(s),
    ensures
        ({
            let (next, action) = spec_reconcile_step(owner, input, s, e);
            &&& match action {
                ActionView::UpdateStatus(st) => {
                    &&& !(st.ready && st.failed)
                    &&& st.ready ==> {
                        &&& st.kubeconfig is Some
                        &&& st.service_account_name == s.sa_name
                        &&& st.token_name == s.token_name
                        &&& st.rolebinding_name == s.rb_name
                        &&& (exists|token: Seq<char>|
                            st.kubeconfig.unwrap() == spec_yaml(
                                #[trigger] spec_kubeconfig(
                                    s.sa_name,
                                    base64_std_of(s.ca.unwrap()),
                                    input.server_url,
                                    token,
                                ),
                            ))
                        &&& st.expires_at == Some(s.expire_at)
                        &&& next.artifacts == 3
                    }
                },
                _ => true,
            }
        }),
{
    let (next, action) = spec_reconcile_step(owner, input, s, e);
    if s.step is AwaitTokenData {
        match e {
            EventView::SecretField(Ok(b)) => {
                if valid_utf8(b) {
                    assert(spec_kubeconfig(
                        s.sa_name,
                        base64_std_of(s.ca.unwrap()),
                        input.server_url,
                        decode_utf8(b),
                    ) == spec_kubeconfig(
                        s.sa_name,
                        base64_std_of(s.ca.unwrap()),
                        input.server_url,
                        decode_utf8(b),
                    ));
                }
            },
            _ => {},
        }
    }
}

/// Whether a metadata record carries the universal stamp for expiry `e`:
/// the managed-by label, and an expire-by annotation that parses back to
/// exactly `e`.
pub open spec fn spec_stamp_ok(m: crate::meta::ObjectMetaView, e: int) -> bool {
    &&& crate::meta::kv_contains(
        m.labels,
        crate::meta::managed_by_key(),
        crate::meta::managed_by_value(),
    )
    &&& i64::MIN <= e <= i64::MAX
    &&& crate::reaper::spec_annotation_expiry(m.annotations) == Some((e as i64))
}

/// Every artifact record the machine asks the process to create carries
/// the universal stamp: the managed-by label the reaper filters on, and an
/// expire-by annotation that parses back to the reconciliation's expiry.
pub proof fn lemma_artifacts_carry_universal_stamp(
    owner: RequestView,
    input: InputView,
    s: StateView,
    e: EventView,
)
    requires
        wf_state(s),
    ensures
        ({
            let (next, action) = spec_reconcile_step(owner, input, s, e);
            match action {
                ActionView::CreateServiceAccount(r) => spec_stamp_ok(r.metadata, s.expire_at),
                ActionView::CreateToken(t) => spec_stamp_ok(t.metadata, s.expire_at),
                ActionView::CreateRoleBinding(b) => spec_stamp_ok(b.metadata, s.expire_at),
                _ => true,
            }
        }),
{
    let (next, action) = spec_reconcile_step(owner, input, s, e);
    let ghost ek = crate::meta::expire_by_key();
    let ghost ev = crate::numfmt::dec_seq_of_int(s.expire_at);
    crate::numfmt::lemma_dec_round_trip((s.expire_at as i64));
    match action {
        ActionView::CreateServiceAccount(r) => {
            assert(r.metadata.labels[0] == (
                crate::meta::managed_by_key(),
                crate::meta::managed_by_value(),
            ));
            assert(crate::reaper::spec_find_kv(r.metadata.annotations, ek) == Some(ev));
        },
        ActionView::CreateToken(t) => {
            assert(t.metadata.labels[0] == (
                crate::meta::managed_by_key(),
                crate::meta::managed_by_value(),
            ));
            assert(t.metadata.annotations[0] == (ek, ev));
            assert(crate::reaper::spec_find_kv(t.metadata.annotations, ek) == Some(ev));
        },
        ActionView::CreateRoleBinding(b) => {
            assert(b.metadata.labels[0] == (
                crate::meta::managed_by_key(),
                crate::meta::managed_by_value(),
            ));
            assert(crate::reaper::spec_find_kv(b.metadata.annotations, ek) == Some(ev));
        },
        _ => {},
    }
}

} // verus!
