//! Tests for pooling-range bookkeeping and geometry arithmetic.

use vmaf_bridge::bridge::{bridge_frame, ScoringSession};
use vmaf_bridge::error::PoolError;
use vmaf_bridge::geometry::{FrameGeometry, TARGET_HEIGHT, TARGET_WIDTH};
use vmaf_bridge::pooling::{finalize, pool_range, PoolRange};

#[test]
fn pooling_zero_submissions_is_a_range_error() {
    assert_eq!(pool_range(0), Err(PoolError::EmptyRange));

    let mut session = ScoringSession::new();
    let r = finalize(&mut session);
    assert_eq!(r, Err(PoolError::EmptyRange));
    // finalization tears the state down even when there is nothing to pool
    assert!(session.closed);
}

#[test]
fn pool_range_covers_every_submitted_index() {
    assert_eq!(pool_range(1), Ok(PoolRange { begin: 0, end: 1 }));
    assert_eq!(pool_range(7), Ok(PoolRange { begin: 0, end: 7 }));
}

#[test]
fn ten_frame_stream_pools_over_ten_submissions() {
    let g = FrameGeometry::new(4, 2).expect("small geometry is well-formed");
    let mut session = ScoringSession::new();
    let data: Vec<u8> = vec![9; 12];
    for expected_index in 0..10u32 {
        let pair = bridge_frame(&g, &mut session, &data).expect("valid frame submits");
        assert_eq!(pair.index, expected_index);
    }
    assert_eq!(session.next_index, 10);
    let range = finalize(&mut session).expect("ten submissions pool");
    assert_eq!(range, PoolRange { begin: 0, end: 10 });
}

#[test]
fn target_geometry_matches_the_frame_contract() {
    let g = FrameGeometry::target();
    assert_eq!(g.width, TARGET_WIDTH);
    assert_eq!(g.height, TARGET_HEIGHT);
    // 960 x 540 x 3/2 bytes per planar 4:2:0 frame
    assert_eq!(g.expected_frame_len(), 777600);
}

#[test]
fn geometry_rejects_degenerate_dimensions() {
    assert!(FrameGeometry::new(0, 540).is_none());
    assert!(FrameGeometry::new(960, 0).is_none());
    assert!(FrameGeometry::new(961, 540).is_none());
    assert!(FrameGeometry::new(960, 541).is_none());
    assert!(FrameGeometry::new(4, 2).is_some());
}

#[test]
fn geometry_rejects_oversized_area() {
    // 65536 x 16384 pixels is exactly the largest accepted luma area
    assert!(FrameGeometry::new(65536, 16384).is_some());
    assert!(FrameGeometry::new(65536, 32768).is_none());
}
