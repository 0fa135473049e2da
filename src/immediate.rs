use vstd::prelude::*;

verus! {

/// Size in bytes of the immediate block as the shaders read it:
/// two 32-bit unsigned integers followed by two 32-bit floats.
pub const IMMEDIATE_SIZE: u32 = 16;

/// An exact fraction `num / den`.
#[derive(Clone, Copy, Debug, PartialEq, Eq, Structural)]
pub struct Ratio {
    pub num: u32,
    pub den: u32,
}

impl Ratio {
    /// The fraction is `n / d` as a rational number.
    pub open spec fn equals(self, n: int, d: int) -> bool {
        self.num * d == n * self.den
    }

    /// The fraction is exactly one.
    pub open spec fn is_one(self) -> bool {
        self.den > 0 && self.num == self.den
    }

    /// The fraction is one or more.
    pub open spec fn at_least_one(self) -> bool {
        self.den > 0 && self.num >= self.den
    }
}

pub open spec fn min_u32(a: u32, b: u32) -> u32 {
    if a < b { a } else { b }
}

/// The aspect ratio of a `width` x `height` window: the smaller side is one,
/// the larger side is its length over the smaller one.
pub open spec fn aspect_of(width: u32, height: u32) -> AspectRatio {
    if width < height {
        AspectRatio { x: Ratio { num: 1, den: 1 }, y: Ratio { num: height, den: width } }
    } else {
        AspectRatio { x: Ratio { num: width, den: height }, y: Ratio { num: 1, den: 1 } }
    }
}

/// A window extent in pixels.
#[derive(Clone, Copy, Debug, PartialEq, Eq, Structural)]
pub struct Size {
    pub width: u32,
    pub height: u32,
}

/// An aspect ratio, one fraction per axis.
#[derive(Clone, Copy, Debug, PartialEq, Eq, Structural)]
pub struct AspectRatio {
    pub x: Ratio,
    pub y: Ratio,
}

/// The constants pushed to the shaders on every draw: the window size and
/// its aspect ratio.
#[derive(Clone, Copy, Debug, PartialEq, Eq, Structural)]
pub struct Immediate {
    pub window_size: Size,
    pub aspect_ratio: AspectRatio,
}

impl Immediate {
    /// The block that describes a `width` x `height` window.
    pub open spec fn of(width: u32, height: u32) -> Immediate {
        Immediate { window_size: Size { width, height }, aspect_ratio: aspect_of(width, height) }
    }

    /// The block describes a window of nonzero size.
    pub open spec fn wf(self) -> bool {
        &&& self.window_size.width > 0
        &&& self.window_size.height > 0
        &&& self == Immediate::of(self.window_size.width, self.window_size.height)
    }

    fn aspect(width: u32, height: u32) -> (r: AspectRatio)
        ensures
            r == aspect_of(width, height),
    {
        if width < height {
            AspectRatio { x: Ratio { num: 1, den: 1 }, y: Ratio { num: height, den: width } }
        } else {
            AspectRatio { x: Ratio { num: width, den: height }, y: Ratio { num: 1, den: 1 } }
        }
    }

    pub fn new(width: u32, height: u32) -> (r: Immediate)
        requires
            width > 0,
            height > 0,
        ensures
            r == Immediate::of(width, height),
            r.wf(),
    {
        Immediate { window_size: Size { width, height }, aspect_ratio: Self::aspect(width, height) }
    }

    /// Records a new window size and recomputes the aspect ratio.
    pub fn update_window_size(&mut self, width: u32, height: u32)
        requires
            width > 0,
            height > 0,
        ensures
            *final(self) == Immediate::of(width, height),
            final(self).wf(),
    {
        self.window_size = Size { width, height };
        self.aspect_ratio = Self::aspect(width, height);
    }
}

/// The aspect ratio of a well-formed block is normalized: its smaller
/// component is exactly one, the other is at least one, and each component
/// is the matching window dimension over the smaller dimension.
pub proof fn lemma_aspect_ratio_normalized(imm: Immediate)
    requires
        imm.wf(),
    ensures
        ({
            let w = imm.window_size.width;
            let h = imm.window_size.height;
            let m = min_u32(w, h);
            &&& imm.aspect_ratio.x.den > 0
            &&& imm.aspect_ratio.y.den > 0
            &&& imm.aspect_ratio.x.equals(w as int, m as int)
            &&& imm.aspect_ratio.y.equals(h as int, m as int)
            &&& (imm.aspect_ratio.x.is_one() && imm.aspect_ratio.y.at_least_one())
                || (imm.aspect_ratio.y.is_one() && imm.aspect_ratio.x.at_least_one())
        }),
{
    let a = imm.aspect_ratio;
    let w = imm.window_size.width as int;
    let h = imm.window_size.height as int;
    if w < h {
        assert(a.x.num == 1 && a.x.den == 1);
        assert(a.x.num * w == w * a.x.den);
        assert(a.y.num * w == h * a.y.den);
    } else {
        assert(a.y.num == 1 && a.y.den == 1);
        assert(a.y.num * h == h * a.y.den);
        assert(a.x.num * h == w * a.x.den);
    }
}

} // verus!
