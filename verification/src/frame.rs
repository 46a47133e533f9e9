//! Owned planar frames, and the copy that splits one delivered buffer
//! into its three planes.
//!
//! Frame data arrives borrowed from the decode pipeline and is valid
//! only for the duration of the callback that delivers it, so it is
//! always copied into owned storage here — the bridge never retains a
//! view into pipeline buffers.

use vstd::prelude::*;
use crate::geometry::FrameGeometry;
use crate::error::BridgeError;

verus! {

/// One decoded frame, split into owned planar buffers: a luma plane
/// and the two chroma planes of a 4:2:0 layout.
pub struct PlanarFrame {
    pub luma: Vec<u8>,
    pub cb: Vec<u8>,
    pub cr: Vec<u8>,
}

impl PlanarFrame {
    /// The planes have exactly the sizes the geometry dictates.
    pub open spec fn wf(self, g: FrameGeometry) -> bool {
        &&& self.luma@.len() == g.luma_len()
        &&& self.cb@.len() == g.chroma_len()
        &&& self.cr@.len() == g.chroma_len()
    }
}

/// Copies `data[start..end]` into a fresh owned buffer.
fn copy_range(data: &Vec<u8>, start: usize, end: usize) -> (v: Vec<u8>)
    requires
        start <= end <= data@.len(),
    ensures
        v@ == data@.subrange(start as int, end as int),
{
    let mut v: Vec<u8> = Vec::new();
    let mut i: usize = start;
    while i < end
        invariant
            start <= i <= end <= data@.len(),
            v@ == data@.subrange(start as int, i as int),
        decreases end - i,
    {
        v.push(data[i]);
        proof {
            assert(data@.subrange(start as int, i as int).push(data@[i as int])
                =~= data@.subrange(start as int, i as int + 1));
        }
        i = i + 1;
    }
    v
}

/// Splits one delivered frame into its luma and two chroma planes,
/// copying each into owned storage. A frame whose byte length does not
/// match the planar 4:2:0 layout of `g` is rejected as a fatal
/// contract violation.
pub fn split_planes(g: &FrameGeometry, data: &Vec<u8>) -> (r: Result<PlanarFrame, BridgeError>)
    requires
        g.wf(),
    ensures
        match r {
            Ok(f) => {
                &&& data@.len() == g.frame_len()
                &&& f.wf(*g)
                &&& f.luma@ == data@.subrange(0, g.luma_len() as int)
                &&& f.cb@ == data@.subrange(
                    g.luma_len() as int,
                    (g.luma_len() + g.chroma_len()) as int,
                )
                &&& f.cr@ == data@.subrange(
                    (g.luma_len() + g.chroma_len()) as int,
                    g.frame_len() as int,
                )
            },
            Err(e) => {
                &&& data@.len() != g.frame_len()
                &&& e == (BridgeError::SizeMismatch {
                    actual: data@.len() as usize,
                    expected: g.frame_len() as usize,
                })
            },
        },
{
    let expected: usize = g.expected_frame_len();
    if data.len() != expected {
        return Err(BridgeError::SizeMismatch { actual: data.len(), expected });
    }
    let luma_len: usize = g.width * g.height;
    let chroma_len: usize = luma_len / 4;
    let luma = copy_range(data, 0, luma_len);
    let cb = copy_range(data, luma_len, luma_len + chroma_len);
    let cr = copy_range(data, luma_len + chroma_len, luma_len + chroma_len + chroma_len);
    Ok(PlanarFrame { luma, cb, cr })
}

} // verus!
