//! Capture failures and the batch semantics: sequential submission that
//! stops at the first failure and surfaces exactly that failure.

use vstd::prelude::*;

verus! {

/// Why one capture attempt failed. A timeout is kept apart from other
/// transport failures so a caller can choose its own policy per failure
/// mode.
#[derive(Debug, PartialEq, Eq)]
pub enum CaptureError {
    /// The request exceeded the configured bound; carries that bound in
    /// milliseconds.
    Timeout(u64),
    /// The request could not be completed (connection, TLS, protocol);
    /// carries the transport's description of the cause.
    Transport(String),
    /// The payload could not be encoded. Representable, though the
    /// library's own serializer is total and never produces it.
    Serialization(String),
}

impl CaptureError {
    /// An equal copy of the error.
    pub fn duplicate(&self) -> (r: CaptureError)
        ensures
            r == *self,
    {
        match self {
            CaptureError::Timeout(ms) => CaptureError::Timeout(*ms),
            CaptureError::Transport(s) => CaptureError::Transport(s.clone()),
            CaptureError::Serialization(s) => CaptureError::Serialization(s.clone()),
        }
    }
}

/// The position of the first failed outcome, if any failed.
pub open spec fn first_failure(outcomes: Seq<Result<(), CaptureError>>) -> Option<int>
    decreases outcomes.len(),
{
    if outcomes.len() == 0 {
        None
    } else if outcomes.first() is Err {
        Some(0)
    } else {
        match first_failure(outcomes.drop_first()) {
            None => None,
            Some(i) => Some(i + 1),
        }
    }
}

proof fn lemma_first_failure(outcomes: Seq<Result<(), CaptureError>>, i: int)
    requires
        0 <= i <= outcomes.len(),
        forall|k: int| 0 <= k < i ==> outcomes[k] is Ok,
        i == outcomes.len() || outcomes[i] is Err,
    ensures
        first_failure(outcomes) == if i == outcomes.len() {
            None
        } else {
            Some(i)
        },
    decreases i,
{
    if i == 0 {
    } else {
        assert(outcomes[0] is Ok);
        let t = outcomes.drop_first();
        assert(forall|k: int| 0 <= k < i - 1 ==> t[k] is Ok);
        lemma_first_failure(t, i - 1);
    }
}

/// What one batch run did: how many submissions were attempted, how many
/// were confirmed delivered, and the failure that stopped it, if one did.
#[derive(Debug, PartialEq, Eq)]
pub struct BatchReport {
    pub attempted: usize,
    pub delivered: usize,
    pub error: Option<CaptureError>,
}

/// The stop-at-first-error fold over per-event outcomes, in order: every
/// event before the first failure is delivered, the failing event is the
/// last one attempted, its error is the one surfaced, and nothing after it
/// is attempted. With no failure, everything is delivered and no error is
/// surfaced. Earlier deliveries are not rolled back by a later failure.
pub fn capture_batch_result(outcomes: &Vec<Result<(), CaptureError>>) -> (r: BatchReport)
    ensures
        first_failure(outcomes@) is None ==> r == (BatchReport {
            attempted: outcomes@.len() as usize,
            delivered: outcomes@.len() as usize,
            error: None,
        }),
        first_failure(outcomes@) matches Some(i) ==> r.attempted == i + 1 && r.delivered == i && (
        outcomes@[i] matches Err(e) && r.error == Some(e)),
{
    let n = outcomes.len();
    let mut i: usize = 0;
    while i < n
        invariant
            i <= n,
            n == outcomes@.len(),
            forall|k: int| 0 <= k < i ==> outcomes@[k] is Ok,
        decreases n - i,
    {
        match &outcomes[i] {
            Ok(_) => {
                i = i + 1;
            },
            Err(e) => {
                proof {
                    lemma_first_failure(outcomes@, i as int);
                }
                return BatchReport { attempted: i + 1, delivered: i, error: Some(e.duplicate()) };
            },
        }
    }
    proof {
        lemma_first_failure(outcomes@, n as int);
    }
    BatchReport { attempted: n, delivered: n, error: None }
}

} // verus!
