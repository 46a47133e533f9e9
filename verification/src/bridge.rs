//! The frame bridge: the one piece of original logic in the run.
//!
//! On each delivered frame it validates the planar layout, copies the
//! planes into two fresh engine-bound pictures, and — inside one
//! critical section — submits the (reference, distorted) pair at the
//! current counter value and advances the counter. In the running
//! program one exclusive lock guards a [`ScoringSession`] together
//! with the engine handle; every operation here models the body of one
//! such critical section, so two callback invocations are serialized
//! and can never interleave their submissions.

use vstd::prelude::*;
use crate::geometry::FrameGeometry;
use crate::frame::{PlanarFrame, split_planes};
use crate::error::BridgeError;

verus! {

/// The shared scoring state: the running counter of submitted frame
/// pairs, whether the driver has torn the state down, and (as a ghost
/// record) the indices submitted so far, in submission order.
pub struct ScoringSession {
    /// The next frame index to assign; equals the number of pairs
    /// submitted so far.
    pub next_index: u32,
    /// Set once the driver finalizes. A callback that still fires
    /// afterwards must abort its frame instead of touching freed
    /// state.
    pub closed: bool,
    /// The submission record: every index handed out, in order.
    pub submitted: Ghost<Seq<u32>>,
}

impl ScoringSession {
    /// The submission record is exactly `0, 1, ..., next_index - 1`:
    /// the counter counts the submissions, which are gapless, start at
    /// zero, and never repeat or reorder an index.
    pub open spec fn wf(self) -> bool {
        self.submitted@ == Seq::new(self.next_index as nat, |i: int| i as u32)
    }

    /// A fresh session: nothing submitted, counter at zero, open.
    pub fn new() -> (s: Self)
        ensures
            s.wf(),
            s.next_index == 0,
            !s.closed,
            s.submitted@ == Seq::<u32>::empty(),
    {
        proof {
            assert(Seq::<u32>::empty() =~= Seq::new(0nat, |i: int| i as u32));
        }
        ScoringSession { next_index: 0, closed: false, submitted: Ghost(Seq::empty()) }
    }
}

/// One (reference, distorted) picture pair, ready for submission to
/// the metric engine at `index`. This prototype compares a frame
/// against itself, so both pictures carry the same planes — a
/// placeholder for a genuine two-stream comparison, not a design goal.
pub struct SubmittedPair {
    pub reference: PlanarFrame,
    pub distorted: PlanarFrame,
    pub index: u32,
}

/// One callback invocation of the frame bridge.
///
/// Validates the delivered bytes against the planar 4:2:0 layout,
/// copies them into two fresh owned pictures, and atomically pairs the
/// submission with the current counter value before advancing the
/// counter by exactly one. A frame that arrives after the session was
/// torn down is aborted gracefully; a frame of the wrong byte length
/// is a fatal contract violation. In both error cases the session is
/// left untouched.
pub fn bridge_frame(g: &FrameGeometry, session: &mut ScoringSession, data: &Vec<u8>) -> (r:
    Result<SubmittedPair, BridgeError>)
    requires
        g.wf(),
        old(session).wf(),
        old(session).next_index < u32::MAX,
    ensures
        final(session).wf(),
        final(session).closed == old(session).closed,
        match r {
            Ok(pair) => {
                &&& !old(session).closed
                &&& data@.len() == g.frame_len()
                &&& pair.index == old(session).next_index
                &&& final(session).next_index == old(session).next_index + 1
                &&& final(session).submitted@ == old(session).submitted@.push(pair.index)
                &&& pair.reference.wf(*g)
                &&& pair.distorted.wf(*g)
                &&& pair.reference.luma@ == data@.subrange(0, g.luma_len() as int)
                &&& pair.reference.cb@ == data@.subrange(
                    g.luma_len() as int,
                    (g.luma_len() + g.chroma_len()) as int,
                )
                &&& pair.reference.cr@ == data@.subrange(
                    (g.luma_len() + g.chroma_len()) as int,
                    g.frame_len() as int,
                )
                &&& pair.distorted.luma@ == pair.reference.luma@
                &&& pair.distorted.cb@ == pair.reference.cb@
                &&& pair.distorted.cr@ == pair.reference.cr@
            },
            Err(BridgeError::SessionClosed) => {
                &&& old(session).closed
                &&& final(session).next_index == old(session).next_index
                &&& final(session).submitted@ == old(session).submitted@
            },
            Err(BridgeError::SizeMismatch { actual, expected }) => {
                &&& !old(session).closed
                &&& data@.len() != g.frame_len()
                &&& actual == data@.len() as usize
                &&& expected == g.frame_len()
                &&& final(session).next_index == old(session).next_index
                &&& final(session).submitted@ == old(session).submitted@
            },
        },
{
    if session.closed {
        return Err(BridgeError::SessionClosed);
    }
    let reference = match split_planes(g, data) {
        Ok(f) => f,
        Err(e) => {
            return Err(e);
        },
    };
    let distorted = match split_planes(g, data) {
        Ok(f) => f,
        Err(e) => {
            return Err(e);
        },
    };
    let index = session.next_index;
    session.next_index = index + 1;
    proof {
        let prev = session.submitted@;
        session.submitted@ = prev.push(index);
        assert(prev.push(index) =~= Seq::new(session.next_index as nat, |i: int| i as u32));
    }
    Ok(SubmittedPair { reference, distorted, index })
}

/// The running counter counts the submissions exactly: in every
/// well-formed session the counter equals the number of submitted
/// pairs, and the pair at position `i` of the submission record was
/// submitted at index `i` — gapless, starting at zero, in order.
pub proof fn lemma_counter_counts_submissions(s: ScoringSession)
    requires
        s.wf(),
    ensures
        s.submitted@.len() == s.next_index as nat,
        forall|i: int| 0 <= i < s.submitted@.len() ==> s.submitted@[i] == i as u32,
{
}

/// Mutual exclusion keeps the indices distinct: no two submissions in
/// a well-formed session's record carry the same index, and a further
/// submission — which the lock serializes after every recorded one —
/// is assigned an index no earlier submission used.
pub proof fn lemma_no_index_reused(s: ScoringSession)
    requires
        s.wf(),
    ensures
        forall|i: int, j: int|
            0 <= i < j < s.submitted@.len() ==> s.submitted@[i] != s.submitted@[j],
        !s.submitted@.contains(s.next_index),
{
    assert forall|i: int| 0 <= i < s.submitted@.len() implies s.submitted@[i] != s.next_index by {
        assert(s.submitted@[i] == i as u32);
    }
}

} // verus!
