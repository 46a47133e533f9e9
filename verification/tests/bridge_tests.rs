//! Tests for the frame bridge: the running counter, the index
//! protocol, the planar-layout contract, and graceful abort after
//! teardown.

use vmaf_bridge::bridge::{bridge_frame, ScoringSession};
use vmaf_bridge::error::BridgeError;
use vmaf_bridge::geometry::FrameGeometry;
use vmaf_bridge::pooling::finalize;

fn small_geometry() -> FrameGeometry {
    // 4 x 2 pixels: luma plane 8 bytes, each chroma plane 2 bytes.
    FrameGeometry::new(4, 2).expect("small geometry is well-formed")
}

fn frame_bytes(n: usize) -> Vec<u8> {
    (0..n).map(|i| i as u8).collect()
}

#[test]
fn split_planes_copies_exact_planes() {
    let g = small_geometry();
    let data = frame_bytes(12);
    let f = vmaf_bridge::frame::split_planes(&g, &data).expect("valid frame splits");
    assert_eq!(f.luma, vec![0, 1, 2, 3, 4, 5, 6, 7]);
    assert_eq!(f.cb, vec![8, 9]);
    assert_eq!(f.cr, vec![10, 11]);
}

#[test]
fn size_mismatch_is_a_fatal_contract_violation() {
    let g = small_geometry();
    let short = frame_bytes(11);
    let r = vmaf_bridge::frame::split_planes(&g, &short);
    assert_eq!(
        r.err(),
        Some(BridgeError::SizeMismatch { actual: 11, expected: 12 })
    );

    let long = frame_bytes(13);
    let mut session = ScoringSession::new();
    let r = bridge_frame(&g, &mut session, &long);
    assert_eq!(
        r.err(),
        Some(BridgeError::SizeMismatch { actual: 13, expected: 12 })
    );
    // a rejected frame is never counted as a submission
    assert_eq!(session.next_index, 0);
}

#[test]
fn counter_equals_number_of_delivered_frames() {
    let g = small_geometry();
    let mut session = ScoringSession::new();
    let data = frame_bytes(12);
    for expected_index in 0..3u32 {
        let pair = bridge_frame(&g, &mut session, &data).expect("valid frame submits");
        assert_eq!(pair.index, expected_index);
    }
    assert_eq!(session.next_index, 3);
}

#[test]
fn serialized_submissions_use_distinct_indices() {
    let g = small_geometry();
    let mut session = ScoringSession::new();
    let data = frame_bytes(12);
    let first = bridge_frame(&g, &mut session, &data).expect("first frame submits");
    let second = bridge_frame(&g, &mut session, &data).expect("second frame submits");
    assert_ne!(first.index, second.index);
    assert_eq!(first.index, 0);
    assert_eq!(second.index, 1);
}

#[test]
fn pair_compares_frame_against_itself() {
    let g = small_geometry();
    let mut session = ScoringSession::new();
    let data = frame_bytes(12);
    let pair = bridge_frame(&g, &mut session, &data).expect("valid frame submits");
    assert_eq!(pair.reference.luma, pair.distorted.luma);
    assert_eq!(pair.reference.cb, pair.distorted.cb);
    assert_eq!(pair.reference.cr, pair.distorted.cr);
    assert_eq!(pair.reference.luma, vec![0, 1, 2, 3, 4, 5, 6, 7]);
}

#[test]
fn late_frame_aborts_gracefully_after_teardown() {
    let g = small_geometry();
    let mut session = ScoringSession::new();
    let data = frame_bytes(12);
    bridge_frame(&g, &mut session, &data).expect("valid frame submits");
    finalize(&mut session).expect("one submission pools");
    assert!(session.closed);
    let r = bridge_frame(&g, &mut session, &data);
    assert_eq!(r.err(), Some(BridgeError::SessionClosed));
    // the aborted frame left the counter untouched
    assert_eq!(session.next_index, 1);
}
