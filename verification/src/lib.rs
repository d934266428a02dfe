//! A safety layer over a native, handle-based version-control engine.
//!
//! The native engine hands out raw, manually freed handles and reports
//! failures through an integer status protocol backed by a mutable
//! "last error" slot. This library holds the decisions that make such an
//! engine safe to drive: the error-translation boundary ([`check`]), the
//! text encoding the native calls require ([`to_nul_terminated`]), the
//! decoding of native text fields ([`decode_c_field`]), the once-only
//! engine lifecycle ([`EngineLifecycle`]), and the ownership discipline
//! that ties each [`Commit`] to the [`Repository`] that produced it and
//! frees every handle exactly once.
//!
//! The native calls themselves stay outside: the surrounding program
//! performs each call and hands the reply (a status, the last-error
//! record, the bytes a handle exposes) to this library as plain values.

mod errors;
mod lifecycle;
mod oid;
mod repo;
mod text;

pub use errors::{check, check_model, GitError, GitResult, LastError};
pub use lifecycle::{lemma_init_once, runs_performed, EngineLifecycle};
pub use oid::Oid;
pub use repo::{
    count_live, lemma_accepted_session, lemma_free_exactly_once, lemma_release_order, live_at,
    Commit, CommitData, Repository, Signature,
};
pub use text::{decode_c_field, has_nul, to_nul_terminated};
