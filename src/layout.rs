//! Aspect ratios and the sizes derived from them.
use vstd::prelude::*;

verus! {

/// Width over height, as a ratio of two positive integers.
#[derive(Clone, Copy, Debug, PartialEq, Eq, Structural)]
pub struct AspectRatio {
    pub width: u32,
    pub height: u32,
}

impl AspectRatio {
    pub open spec fn wf(self) -> bool {
        self.width > 0 && self.height > 0
    }

    /// The ratio `width : height`.
    pub fn new(width: u32, height: u32) -> (r: AspectRatio)
        requires
            width > 0,
            height > 0,
        ensures
            r == (AspectRatio { width, height }),
            r.wf(),
    {
        AspectRatio { width, height }
    }

    /// A square.
    pub fn square() -> (r: AspectRatio)
        ensures
            r == (AspectRatio { width: 1, height: 1 }),
            r.wf(),
    {
        AspectRatio { width: 1, height: 1 }
    }
}

/// The size a node with aspect ratio `ar` takes inside a laid-out box of
/// `width` by `height`: the shorter side is kept and the other follows the
/// ratio. A square box is kept as it is (`None`).
pub open spec fn fit_aspect_spec(width: nat, height: nat, ar: AspectRatio) -> Option<(nat, nat)> {
    if width < height {
        Some((width, width * (ar.height as nat) / (ar.width as nat)))
    } else if width > height {
        Some((height * (ar.width as nat) / (ar.height as nat), height))
    } else {
        None
    }
}

/// Resizes a box of `width` by `height` to aspect ratio `ar`. A square box
/// only fits a square ratio.
pub fn fit_aspect_ratio(width: u32, height: u32, ar: AspectRatio) -> (r: Option<(u64, u64)>)
    requires
        ar.wf(),
        width == height ==> ar.width == ar.height,
    ensures
        match fit_aspect_spec(width as nat, height as nat, ar) {
            Some((w, h)) => r == Some((w as u64, h as u64)),
            None => r is None,
        },
{
    if width < height {
        proof {
            lemma_mul_fits(width, ar.height);
        }
        let h = (width as u64) * (ar.height as u64) / (ar.width as u64);
        Some((width as u64, h))
    } else if width > height {
        proof {
            lemma_mul_fits(height, ar.width);
        }
        let w = (height as u64) * (ar.width as u64) / (ar.height as u64);
        Some((w, height as u64))
    } else {
        None
    }
}

proof fn lemma_mul_fits(a: u32, b: u32)
    ensures
        (a as nat) * (b as nat) <= u64::MAX,
{
    assert((a as nat) * (b as nat) <= (u32::MAX as nat) * (u32::MAX as nat)) by (nonlinear_arith)
        requires
            a <= u32::MAX,
            b <= u32::MAX,
    ;
}

/// The font size of auto-sized text in a container of height `height`: a
/// quarter of the height scaled by the aspect ratio when the container has
/// one, else four ninths of it (a 16:9 box).
pub open spec fn auto_text_size_spec(height: nat, ar: Option<AspectRatio>) -> nat {
    match ar {
        Some(a) => height * (a.width as nat) / (4 * (a.height as nat)),
        None => height * 4 / 9,
    }
}

pub fn auto_text_size(height: u32, ar: Option<AspectRatio>) -> (r: u64)
    requires
        ar matches Some(a) ==> a.wf(),
    ensures
        r == auto_text_size_spec(height as nat, ar),
{
    match ar {
        Some(a) => {
            proof {
                lemma_mul_fits(height, a.width);
            }
            (height as u64) * (a.width as u64) / (4 * (a.height as u64))
        },
        None => (height as u64) * 4 / 9,
    }
}

} // verus!
