use vstd::prelude::*;

verus! {

// The viewport transform and the vertex-stage mapping it drives. Values
// are in fixed point with 16 fractional bits: FX_ONE stands for 1.0.
// The vertex stage computes
//     out = scale * (position * (1, aspect_ratio)) + offset
// for quad corner positions in {-1, 0, 1}; only the combined y scale,
// scale * aspect_ratio, needs rounding (toward negative infinity, to the
// nearest fixed-point value below).

/// The fixed-point unit: 1.0 is 65536.
pub const FX_ONE: i64 = 65536;

/// Bound on transform magnitudes: 32768.0 in fixed point. It keeps every
/// product of the vertex-stage arithmetic inside i64.
pub const FX_BOUND: i64 = 65536 * 32768;

/// The per-frame uniform read by the vertex stage: where and how large
/// the simulation image appears. `scale` and `aspect_ratio` are positive.
#[derive(Clone, Copy, PartialEq, Eq, Structural, Debug)]
pub struct ViewportTransform {
    pub offset_x: i64,
    pub offset_y: i64,
    pub scale: i64,
    pub aspect_ratio: i64,
}

impl ViewportTransform {
    pub open spec fn wf(self) -> bool {
        &&& -FX_BOUND <= self.offset_x <= FX_BOUND
        &&& -FX_BOUND <= self.offset_y <= FX_BOUND
        &&& 0 < self.scale <= FX_BOUND
        &&& 0 < self.aspect_ratio <= FX_BOUND
    }
}

impl Default for ViewportTransform {
    /// No offset, scale 1, aspect ratio 1.
    fn default() -> (t: Self)
        ensures
            t.wf(),
            t.offset_x == 0,
            t.offset_y == 0,
            t.scale == FX_ONE,
            t.aspect_ratio == FX_ONE,
    {
        ViewportTransform { offset_x: 0, offset_y: 0, scale: FX_ONE, aspect_ratio: FX_ONE }
    }
}

/// The combined y scale, scale * aspect_ratio, rounded to fixed point.
pub open spec fn y_scale(t: ViewportTransform) -> int {
    (t.scale * t.aspect_ratio) / (FX_ONE as int)
}

/// Where the vertex stage puts the x coordinate of a quad position.
pub open spec fn tx_x(t: ViewportTransform, px: int) -> int {
    t.scale * px + t.offset_x
}

/// Where the vertex stage puts the y coordinate of a quad position.
pub open spec fn tx_y(t: ViewportTransform, py: int) -> int {
    y_scale(t) * py + t.offset_y
}

/// The vertex-stage mapping on a quad corner position: clip-space output
/// in fixed point, texture coordinates passed through unchanged by the
/// stage.
pub fn apply_transform(t: &ViewportTransform, px: i32, py: i32) -> (r: (i64, i64))
    requires
        t.wf(),
        -1 <= px <= 1,
        -1 <= py <= 1,
    ensures
        r.0 == tx_x(*t, px as int),
        r.1 == tx_y(*t, py as int),
{
    proof {
        assert(0 < t.scale * t.aspect_ratio <= FX_BOUND * FX_BOUND) by (nonlinear_arith)
            requires
                0 < t.scale <= FX_BOUND,
                0 < t.aspect_ratio <= FX_BOUND,
        ;
    }
    let sy = ((t.scale as u64) * (t.aspect_ratio as u64) / (FX_ONE as u64)) as i64;
    proof {
        assert(sy == y_scale(*t));
        assert(-FX_BOUND <= t.scale * (px as int) <= FX_BOUND) by (nonlinear_arith)
            requires
                0 < t.scale <= FX_BOUND,
                -1 <= px <= 1,
        ;
        assert(-(sy as int) <= sy * (py as int) <= sy as int) by (nonlinear_arith)
            requires
                0 <= sy,
                -1 <= py <= 1,
        ;
    }
    let x = t.scale * (px as i64) + t.offset_x;
    let y = sy * (py as i64) + t.offset_y;
    (x, y)
}

/// With aspect ratio 1, the y scale is exactly the x scale: no rounding
/// happens.
pub proof fn lemma_aspect_one(t: ViewportTransform)
    requires
        t.aspect_ratio == FX_ONE,
    ensures
        y_scale(t) == t.scale,
{
    vstd::arithmetic::div_mod::lemma_div_multiples_vanish(t.scale as int, FX_ONE as int);
}

/// Transform composition: with offset (0,0) and aspect ratio 1, a quad
/// position maps exactly to scale * position on both axes. In particular
/// scale 1 maps the quad's corners to [-1,1] x [-1,1] (in fixed point,
/// +-FX_ONE) and scale 2 maps them to [-2,2] x [-2,2], before clipping.
pub proof fn lemma_transform_composition(t: ViewportTransform, px: int, py: int)
    requires
        t.offset_x == 0,
        t.offset_y == 0,
        t.aspect_ratio == FX_ONE,
    ensures
        tx_x(t, px) == t.scale * px,
        tx_y(t, py) == t.scale * py,
{
    lemma_aspect_one(t);
}

} // verus!
