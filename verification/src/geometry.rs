//! Frame geometry: the fixed decode target and the byte layout of one
//! planar 4:2:0 frame.

use vstd::prelude::*;

verus! {

/// Width, in pixels, of the fixed decode target.
pub const TARGET_WIDTH: usize = 960;

/// Height, in pixels, of the fixed decode target.
pub const TARGET_HEIGHT: usize = 540;

/// Largest luma-plane area the library accepts. The bound keeps every
/// derived byte length well inside `usize`, on 32-bit targets too.
pub const MAX_AREA: usize = 0x4000_0000;

/// Geometry of one decoded frame at 8-bit depth with 4:2:0 chroma
/// subsampling: one full-resolution luma plane followed by two
/// quarter-resolution chroma planes.
#[derive(Debug, Clone, Copy, PartialEq, Eq, Structural)]
pub struct FrameGeometry {
    pub width: usize,
    pub height: usize,
}

impl FrameGeometry {
    /// Both dimensions are positive and even (4:2:0 subsampling halves
    /// each dimension of the chroma planes), and the luma area is
    /// bounded so that plane arithmetic cannot overflow.
    pub open spec fn wf(self) -> bool {
        &&& 0 < self.width
        &&& 0 < self.height
        &&& self.width % 2 == 0
        &&& self.height % 2 == 0
        &&& self.width * self.height <= MAX_AREA
    }

    /// Bytes in the luma plane: one byte per pixel.
    pub open spec fn luma_len(self) -> nat {
        (self.width * self.height) as nat
    }

    /// Bytes in each chroma plane: a quarter of the luma area.
    pub open spec fn chroma_len(self) -> nat {
        self.luma_len() / 4
    }

    /// Total bytes of one planar 4:2:0 frame: luma plus two chroma
    /// planes.
    pub open spec fn frame_len(self) -> nat {
        self.luma_len() + 2 * self.chroma_len()
    }

    /// With even dimensions the luma area is divisible by four, so the
    /// frame length is exactly width x height x 3/2.
    pub proof fn lemma_frame_len_is_three_halves(self)
        requires
            self.wf(),
        ensures
            self.luma_len() % 4 == 0,
            2 * self.frame_len() == 3 * self.luma_len(),
    {
        let w = self.width as int;
        let h = self.height as int;
        let a = w / 2;
        let b = h / 2;
        vstd::arithmetic::div_mod::lemma_fundamental_div_mod(w, 2);
        vstd::arithmetic::div_mod::lemma_fundamental_div_mod(h, 2);
        assert(w * h == (a * b) * 4) by (nonlinear_arith)
            requires
                w == 2 * a,
                h == 2 * b,
        ;
        vstd::arithmetic::div_mod::lemma_mod_multiples_basic(a * b, 4);
        assert(self.luma_len() % 4 == 0);
        vstd::arithmetic::div_mod::lemma_fundamental_div_mod(w * h, 4);
    }

    /// Accepts a geometry exactly when it is well-formed.
    pub fn new(width: usize, height: usize) -> (r: Option<FrameGeometry>)
        ensures
            match r {
                Some(g) => g.width == width && g.height == height && g.wf(),
                None => !(FrameGeometry { width, height }).wf(),
            },
    {
        if width > 0 && height > 0 && width % 2 == 0 && height % 2 == 0
            && width <= MAX_AREA / height
        {
            proof {
                let wi = width as int;
                let hi = height as int;
                let m = MAX_AREA as int;
                vstd::arithmetic::div_mod::lemma_fundamental_div_mod(m, hi);
                vstd::arithmetic::div_mod::lemma_mod_bound(m, hi);
                assert(wi * hi <= m) by (nonlinear_arith)
                    requires
                        hi > 0,
                        wi <= m / hi,
                        m == hi * (m / hi) + (m % hi),
                        0 <= m % hi,
                ;
            }
            Some(FrameGeometry { width, height })
        } else {
            proof {
                if width > 0 && height > 0 && width > MAX_AREA / height {
                    let wi = width as int;
                    let hi = height as int;
                    let m = MAX_AREA as int;
                    vstd::arithmetic::div_mod::lemma_fundamental_div_mod(m, hi);
                    vstd::arithmetic::div_mod::lemma_mod_bound(m, hi);
                    assert(wi * hi > m) by (nonlinear_arith)
                        requires
                            hi > 0,
                            wi >= m / hi + 1,
                            m == hi * (m / hi) + (m % hi),
                            0 <= m % hi < hi,
                    ;
                }
            }
            None
        }
    }

    /// The fixed decode target of the measurement run.
    pub fn target() -> (g: FrameGeometry)
        ensures
            g.wf(),
            g.width == TARGET_WIDTH,
            g.height == TARGET_HEIGHT,
    {
        FrameGeometry { width: TARGET_WIDTH, height: TARGET_HEIGHT }
    }

    /// Exact byte length the decode pipeline must deliver for one
    /// frame of this geometry.
    pub fn expected_frame_len(&self) -> (n: usize)
        requires
            self.wf(),
        ensures
            n as nat == self.frame_len(),
    {
        let luma: usize = self.width * self.height;
        luma + (luma / 4) * 2
    }
}

} // verus!
