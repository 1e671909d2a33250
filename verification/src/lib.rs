//! Core logic of a controller that mints time-bounded, role-scoped access
//! credentials on a container-orchestration cluster. The modules here hold
//! the decision and assembly logic — metadata stamping, name generation,
//! expiry handling, the client-configuration document, the per-request
//! reconciliation state machine and the expiry reaper's selection rules —
//! each with a verified contract. The surrounding process (API calls,
//! watches, timers) drives these functions and carries out the actions they
//! return.

pub mod cluster;
pub mod crd;
pub mod error;
pub mod expire;
pub mod kubeconfig;
pub mod meta;
pub mod numfmt;
pub mod reaper;
pub mod reconcile;
pub mod role;
pub mod rolebinding;
pub mod serviceaccount;
pub mod token;
pub mod watcher;
