//! Finalization: tearing the shared scoring state down and computing
//! the index range the pooled score is taken over.

use vstd::prelude::*;
use crate::bridge::ScoringSession;
use crate::error::PoolError;

verus! {

/// A half-open index range `[begin, end)` the pooled score is computed
/// over.
#[derive(Debug, Clone, Copy, PartialEq, Eq, Structural)]
pub struct PoolRange {
    pub begin: u32,
    pub end: u32,
}

/// The pooling range covers every submitted index and nothing else:
/// `[0, count)`. When no frame pair was ever submitted the range is
/// empty, and a range error is returned rather than a numeric score.
pub fn pool_range(count: u32) -> (r: Result<PoolRange, PoolError>)
    ensures
        match r {
            Ok(pr) => count > 0 && pr.begin == 0 && pr.end == count,
            Err(e) => count == 0 && e == PoolError::EmptyRange,
        },
{
    if count == 0 {
        Err(PoolError::EmptyRange)
    } else {
        Ok(PoolRange { begin: 0, end: count })
    }
}

/// The driver's finalization step, run under the same lock as the
/// frame bridge and only after playback has fully stopped: it tears
/// the shared state down — any callback that still fires afterwards
/// aborts its frame — and computes the pooling range, which covers
/// exactly the completed submissions.
pub fn finalize(session: &mut ScoringSession) -> (r: Result<PoolRange, PoolError>)
    requires
        old(session).wf(),
    ensures
        final(session).wf(),
        final(session).closed,
        final(session).next_index == old(session).next_index,
        final(session).submitted@ == old(session).submitted@,
        match r {
            Ok(pr) => {
                &&& old(session).next_index > 0
                &&& pr.begin == 0
                &&& pr.end == old(session).next_index
                &&& pr.end as nat == old(session).submitted@.len()
            },
            Err(e) => old(session).next_index == 0 && e == PoolError::EmptyRange,
        },
{
    session.closed = true;
    pool_range(session.next_index)
}

} // verus!
