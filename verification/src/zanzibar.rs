//! Consistency tokens and the consistency a check may ask for.
//!
//! Every write answers with a token. A caller that has to see its own write
//! hands that token to the next check as a lower bound; a caller that does
//! not care asks for the cheapest answer. Tokens are issued and ordered by
//! the backend: this crate passes them on and never looks inside.

use vstd::prelude::*;

verus! {

/// A marker of the backend state that a write produced or a check was
/// evaluated against.
#[derive(Clone, Copy, Debug, PartialEq, Eq, Structural, Hash)]
pub struct Zookie {
    revision: u64,
}

impl View for Zookie {
    type V = nat;

    /// The position of the marked state in the backend's history.
    closed spec fn view(&self) -> nat {
        self.revision as nat
    }
}

impl Zookie {
    /// The token for the state at `revision`. For backends: callers only
    /// pass on tokens they were given.
    pub fn at_revision(revision: u64) -> (token: Zookie)
        ensures
            token@ == revision,
    {
        Zookie { revision }
    }

    /// The position of the marked state. For backends.
    pub fn revision(&self) -> (revision: u64)
        ensures
            revision == self@,
    {
        self.revision
    }
}

/// How fresh the state must be that a check is evaluated against.
#[derive(Clone, Copy, Debug, PartialEq, Eq, Structural, Hash)]
pub enum Consistency {
    /// Any state will do, however stale.
    MinimalLatency,
    /// A state at or after the one the token marks.
    AtLeastAsFresh(Zookie),
    /// The latest state.
    FullyConsistent,
}

impl Consistency {
    /// Whether a check that asked for `self` may be answered from the state
    /// at `revision`, when `latest` is the newest revision there is.
    pub open spec fn admits(self, revision: nat, latest: nat) -> bool {
        &&& revision <= latest
        &&& match self {
            Consistency::MinimalLatency => true,
            Consistency::AtLeastAsFresh(token) => token@ <= revision,
            Consistency::FullyConsistent => revision == latest,
        }
    }
}

} // verus!
