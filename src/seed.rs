use vstd::prelude::*;
use vstd::arithmetic::div_mod::{lemma_fundamental_div_mod, lemma_fundamental_div_mod_converse};

verus! {

/// How initial velocities are laid out over the field.
#[derive(Clone, Copy, Debug, PartialEq, Eq, Structural)]
pub enum VelocityPattern {
    /// Away from the centre, turned by the velocity angle.
    Radial,
    /// Perpendicular to the position, turned by the velocity angle.
    Tangential,
    /// The same direction, the velocity angle, everywhere.
    Uniform,
    /// At rest.
    Zero,
}

/// The pattern that a `velocity_pattern` code selects: 0, 1 and 2 select
/// radial, tangential and uniform; every other code means at rest.
pub open spec fn pattern_of(code: u32) -> VelocityPattern {
    if code == 0 {
        VelocityPattern::Radial
    } else if code == 1 {
        VelocityPattern::Tangential
    } else if code == 2 {
        VelocityPattern::Uniform
    } else {
        VelocityPattern::Zero
    }
}

impl VelocityPattern {
    pub fn from_code(code: u32) -> (r: VelocityPattern)
        ensures
            r == pattern_of(code),
    {
        match code {
            0 => VelocityPattern::Radial,
            1 => VelocityPattern::Tangential,
            2 => VelocityPattern::Uniform,
            _ => VelocityPattern::Zero,
        }
    }
}

/// The direction of one particle's initial velocity, whose length is the
/// velocity magnitude `m`. With `a` the velocity angle and `u` the particle's
/// position:
#[derive(Clone, Copy, Debug, PartialEq, Eq, Structural)]
pub enum Heading {
    /// `(0, 0)`.
    Still,
    /// `m (cos a, sin a)`.
    Angle,
    /// `m (cos (a + π/2), sin (a + π/2))`.
    AngleQuarter,
    /// `m` times `u / |u|` turned by `a`.
    Outward,
    /// `m` times `(-u.y, u.x) / |u|` turned by `a`.
    Across,
}

/// The side length of the field in world units, as the ratio `num / den`.
#[derive(Clone, Copy, Debug, PartialEq, Eq)]
pub struct Scale {
    num: u16,
    den: u16,
}

impl Scale {
    #[verifier::type_invariant]
    spec fn inv(self) -> bool {
        self.den > 0
    }

    pub closed spec fn num_spec(self) -> u16 {
        self.num
    }

    pub closed spec fn den_spec(self) -> u16 {
        self.den
    }

    /// The scale `num / den`; none where `den` is zero.
    pub fn new(num: u16, den: u16) -> (r: Option<Scale>)
        ensures
            r is Some <==> den > 0,
            r matches Some(s) ==> s.num_spec() == num && s.den_spec() == den,
    {
        if den == 0 {
            None
        } else {
            Some(Scale { num, den })
        }
    }

    /// The whole-number scale `n`.
    pub fn whole(n: u16) -> (r: Scale)
        ensures
            r.num_spec() == n,
            r.den_spec() == 1,
    {
        Scale { num: n, den: 1 }
    }

    pub fn num(&self) -> (r: u16)
        ensures
            r == self.num_spec(),
    {
        self.num
    }

    pub fn den(&self) -> (r: u16)
        ensures
            r == self.den_spec(),
            r > 0,
    {
        proof {
            use_type_invariant(self);
        }
        self.den
    }
}

/// One particle of a freshly seeded field: its grid cell and the direction of
/// its initial velocity. The particle sits at the centred position
/// `((col / width - 1/2) s, (row / height - 1/2) s)` for the scale `s`.
#[derive(Clone, Copy, Debug, PartialEq, Eq, Structural)]
pub struct Seed {
    pub col: u32,
    pub row: u32,
    pub heading: Heading,
}

/// Whether the centred position of cell `(col, row)` of a `w` × `h` grid at
/// scale `num / den` lies within distance 1/1000 of the origin. The position
/// is `(dx num / (2 w den), dy num / (2 h den))` with `dx = 2 col - w` and
/// `dy = 2 row - h`; the test is its squared length against 1/1000000, both
/// sides multiplied by `1000000 (2 w h den)^2`.
pub open spec fn near_origin(col: int, row: int, w: int, h: int, num: int, den: int) -> bool {
    let dx = 2 * col - w;
    let dy = 2 * row - h;
    1_000_000 * (num * num) * (dx * dx * (h * h) + dy * dy * (w * w)) <= (2 * w * h * den) * (2 * w
        * h * den)
}

/// The heading that `pattern` gives a particle, where `near` tells whether the
/// particle lies within 1/1000 of the origin (there the position has no usable
/// direction, and the angle alone decides).
pub open spec fn heading_for(pattern: VelocityPattern, near: bool) -> Heading {
    match pattern {
        VelocityPattern::Radial => if near {
            Heading::Angle
        } else {
            Heading::Outward
        },
        VelocityPattern::Tangential => if near {
            Heading::AngleQuarter
        } else {
            Heading::Across
        },
        VelocityPattern::Uniform => Heading::Angle,
        VelocityPattern::Zero => Heading::Still,
    }
}

/// The seed of particle `i` (row-major) of a `w` × `h` grid.
pub open spec fn seed_at(w: u32, h: u32, scale: Scale, code: u32, i: int) -> Seed {
    let col = i % (w as int);
    let row = i / (w as int);
    Seed {
        col: col as u32,
        row: row as u32,
        heading: heading_for(
            pattern_of(code),
            near_origin(col, row, w as int, h as int, scale.num_spec() as int, scale.den_spec() as int),
        ),
    }
}

/// The whole seeded field of a `w` × `h` grid, in row-major order.
pub open spec fn seeds_of(w: u32, h: u32, scale: Scale, code: u32) -> Seq<Seed> {
    Seq::new((w * h) as nat, |i: int| seed_at(w, h, scale, code, i))
}

proof fn lemma_product_bound(a: int, b: int, c: int)
    requires
        0 <= a <= b,
        0 <= c,
    ensures
        a * c <= b * c,
{
    assert(a * c <= b * c) by (nonlinear_arith)
        requires
            0 <= a <= b,
            0 <= c,
    ;
}

/// Whether cell `(col, row)` lies within 1/1000 of the origin, decided in exact
/// integer arithmetic.
pub fn is_near_origin(col: u32, row: u32, width: u32, height: u32, scale: Scale) -> (r: bool)
    requires
        col < width,
        row < height,
        width * height <= u32::MAX,
    ensures
        r == near_origin(
            col as int,
            row as int,
            width as int,
            height as int,
            scale.num_spec() as int,
            scale.den_spec() as int,
        ),
{
    let num = scale.num() as u128;
    let den = scale.den() as u128;
    let w = width as u128;
    let h = height as u128;
    let c2 = 2 * (col as u128);
    let r2 = 2 * (row as u128);
    let dx: u128 = if c2 >= w { c2 - w } else { w - c2 };
    let dy: u128 = if r2 >= h { r2 - h } else { h - r2 };
    let ghost wh = w * h;
    proof {
        lemma_product_bound(dx as int, w as int, h as int);
        lemma_product_bound(dy as int, h as int, w as int);
        assert(h * w == w * h) by (nonlinear_arith);
    }
    let a = dx * h;
    let b = dy * w;
    proof {
        lemma_product_bound(a as int, wh, a as int);
        lemma_product_bound(a as int, wh, wh);
        lemma_product_bound(b as int, wh, b as int);
        lemma_product_bound(b as int, wh, wh);
        assert(wh * wh <= 0xFFFF_FFFFint * 0xFFFF_FFFFint) by (nonlinear_arith)
            requires
                0 <= wh <= 0xFFFF_FFFFu128,
        ;
    }
    let s = a * a + b * b;
    proof {
        lemma_product_bound(num as int, 0xFFFFint, num as int);
        lemma_product_bound(num as int, 0xFFFFint, 0xFFFF);
    }
    let n2 = num * num;
    proof {
        lemma_product_bound(n2 as int, 0xFFFFint * 0xFFFFint, s as int);
        lemma_product_bound(s as int, 2 * (0xFFFF_FFFFint * 0xFFFF_FFFFint), 0xFFFFint * 0xFFFFint);
    }
    let lhs = 1_000_000 * (n2 * s);
    proof {
        lemma_product_bound(den as int, 0xFFFFint, 2 * wh);
        lemma_product_bound(2 * wh, 2 * 0xFFFF_FFFFint, 0xFFFFint);
        assert(2 * wh * den == 2 * (w * h) * den);
    }
    let q = 2 * (w * h) * den;
    proof {
        lemma_product_bound(q as int, 2 * 0xFFFF_FFFFint * 0xFFFFint, q as int);
        lemma_product_bound(q as int, 2 * 0xFFFF_FFFFint * 0xFFFFint, 2 * 0xFFFF_FFFFint * 0xFFFFint);
    }
    let rhs = q * q;
    proof {
        let ci = col as int;
        let ri = row as int;
        let wi = width as int;
        let hi = height as int;
        assert(dx * dx == (2 * ci - wi) * (2 * ci - wi)) by (nonlinear_arith)
            requires
                dx == 2 * ci - wi || dx == wi - 2 * ci,
        ;
        assert(dy * dy == (2 * ri - hi) * (2 * ri - hi)) by (nonlinear_arith)
            requires
                dy == 2 * ri - hi || dy == hi - 2 * ri,
        ;
        assert(a * a == dx * dx * (h * h)) by (nonlinear_arith)
            requires
                a == dx * h,
        ;
        assert(b * b == dy * dy * (w * w)) by (nonlinear_arith)
            requires
                b == dy * w,
        ;
        assert(1_000_000 * (n2 * s) == 1_000_000 * (num * num) * s) by (nonlinear_arith)
            requires
                n2 == num * num,
        ;
        assert(q == 2 * wi * hi * (den as int)) by (nonlinear_arith)
            requires
                q == 2 * (w * h) * den,
                w == wi,
                h == hi,
        ;
        let sx = (2 * ci - wi) * (2 * ci - wi) * (hi * hi) + (2 * ri - hi) * (2 * ri - hi) * (wi
            * wi);
        assert(s == sx);
        assert(lhs == 1_000_000 * ((num as int) * (num as int)) * sx);
    }
    lhs <= rhs
}

/// The exact centred offset of cell `index` of `count` cells along one axis at
/// scale `s`, as the fraction `r.0 / r.1`: `(index / count - 1/2) s`, that is
/// `(2 index - count) num / (2 count den)`.
pub fn cell_offset(index: u32, count: u32, scale: Scale) -> (r: (i64, u64))
    requires
        index < count,
    ensures
        r.0 == (2 * index - count) * scale.num_spec(),
        r.1 == 2 * count * scale.den_spec(),
        r.1 > 0,
{
    let num = scale.num() as i64;
    let den = scale.den() as u64;
    let d = 2 * (index as i64) - (count as i64);
    proof {
        assert(-0x1_0000_0000 <= d <= 0x1_0000_0000);
        assert(-0x1_0000_0000 * 0xFFFF <= d * num <= 0x1_0000_0000 * 0xFFFF) by (nonlinear_arith)
            requires
                -0x1_0000_0000 <= d <= 0x1_0000_0000,
                0 <= num <= 0xFFFF,
        ;
        assert(0 < 2 * (count as u64) * den <= 0x2_0000_0000 * 0xFFFF) by (nonlinear_arith)
            requires
                0 < count <= 0xFFFF_FFFFu64,
                0 < den <= 0xFFFF,
        ;
    }
    (d * num, 2 * (count as u64) * den)
}

/// The heading of the particle in cell `(col, row)` under the pattern `code`.
pub fn heading_at(col: u32, row: u32, width: u32, height: u32, scale: Scale, code: u32) -> (r:
    Heading)
    requires
        col < width,
        row < height,
        width * height <= u32::MAX,
    ensures
        r == heading_for(
            pattern_of(code),
            near_origin(
                col as int,
                row as int,
                width as int,
                height as int,
                scale.num_spec() as int,
                scale.den_spec() as int,
            ),
        ),
{
    match VelocityPattern::from_code(code) {
        VelocityPattern::Radial => if is_near_origin(col, row, width, height, scale) {
            Heading::Angle
        } else {
            Heading::Outward
        },
        VelocityPattern::Tangential => if is_near_origin(col, row, width, height, scale) {
            Heading::AngleQuarter
        } else {
            Heading::Across
        },
        VelocityPattern::Uniform => Heading::Angle,
        VelocityPattern::Zero => Heading::Still,
    }
}

/// The position of flat index `i` in a grid `width` cells wide lies inside a
/// grid of `width * height` cells.
pub(crate) proof fn lemma_cell_in_grid(i: int, width: int, height: int)
    requires
        0 <= i < width * height,
        width > 0,
    ensures
        0 <= i % width < width,
        0 <= i / width < height,
{
    lemma_fundamental_div_mod(i, width);
    assert(0 <= i % width < width) by (nonlinear_arith)
        requires
            width > 0,
    ;
    assert(0 <= i / width < height) by (nonlinear_arith)
        requires
            i == width * (i / width) + i % width,
            0 <= i % width,
            0 <= i < width * height,
            width > 0,
    ;
}

/// The field is laid out row-major: particle `i` sits in column `i % w` and
/// row `i / w`, inside the grid.
pub proof fn lemma_seeds_row_major(w: u32, h: u32, scale: Scale, code: u32, i: int)
    requires
        0 <= i < w * h,
    ensures
        seeds_of(w, h, scale, code).len() == w * h,
        seeds_of(w, h, scale, code)[i].col == i % (w as int),
        seeds_of(w, h, scale, code)[i].row == i / (w as int),
        seeds_of(w, h, scale, code)[i].col < w,
        seeds_of(w, h, scale, code)[i].row < h,
{
    if w == 0 {
        assert(w * h == 0);
    }
    lemma_cell_in_grid(i, w as int, h as int);
}

/// With the zero pattern (any code other than 0, 1 and 2) every particle
/// starts at rest, whatever the magnitude and angle.
pub proof fn lemma_zero_pattern_is_still(w: u32, h: u32, scale: Scale, code: u32)
    requires
        code > 2,
    ensures
        forall|i: int|
            0 <= i < w * h ==> (#[trigger] seeds_of(w, h, scale, code)[i]).heading == Heading::Still,
{
}

/// With the uniform pattern every particle starts along the velocity angle,
/// with the velocity magnitude, wherever it is.
pub proof fn lemma_uniform_pattern_follows_angle(w: u32, h: u32, scale: Scale)
    ensures
        forall|i: int|
            0 <= i < w * h ==> (#[trigger] seeds_of(w, h, scale, 2)[i]).heading == Heading::Angle,
{
}

/// Radial and tangential particles within 1/1000 of the origin take the
/// angle (radial) or the angle plus a quarter turn (tangential) instead of a
/// direction from their position.
pub proof fn lemma_near_origin_falls_back(w: u32, h: u32, scale: Scale, code: u32, i: int)
    requires
        0 <= i < w * h,
        near_origin(
            i % (w as int),
            i / (w as int),
            w as int,
            h as int,
            scale.num_spec() as int,
            scale.den_spec() as int,
        ),
    ensures
        code == 0 ==> seeds_of(w, h, scale, code)[i].heading == Heading::Angle,
        code == 1 ==> seeds_of(w, h, scale, code)[i].heading == Heading::AngleQuarter,
{
}

/// The exact centre cell of a grid of even width and height lies at the
/// origin, so there radial and tangential seeding take the fallback.
pub proof fn lemma_centre_cell_falls_back(w: u32, h: u32, scale: Scale, code: u32, col: u32, row: u32)
    requires
        w > 0,
        h > 0,
        2 * col == w,
        2 * row == h,
    ensures
        row * w + col < w * h,
        seeds_of(w, h, scale, code)[row * w + col] == (Seed {
            col,
            row,
            heading: heading_for(pattern_of(code), true),
        }),
        code == 0 ==> seeds_of(w, h, scale, code)[row * w + col].heading == Heading::Angle,
        code == 1 ==> seeds_of(w, h, scale, code)[row * w + col].heading == Heading::AngleQuarter,
{
    let i = row * w + col;
    assert(i < w * h) by (nonlinear_arith)
        requires
            i == row * w + col,
            col < w,
            row < h,
    ;
    lemma_fundamental_div_mod_converse(i, w as int, row as int, col as int);
    let q = 2 * (w as int) * (h as int) * (scale.den_spec() as int);
    assert(q * q >= 0) by (nonlinear_arith);
    let n = scale.num_spec() as int;
    let dx = 2 * (col as int) - (w as int);
    let dy = 2 * (row as int) - (h as int);
    assert(1_000_000 * (n * n) * (dx * dx * ((h as int) * (h as int)) + dy * dy * ((w as int) * (
    w as int))) == 0) by (nonlinear_arith)
        requires
            dx == 0,
            dy == 0,
    ;
    assert(near_origin(
        col as int,
        row as int,
        w as int,
        h as int,
        scale.num_spec() as int,
        scale.den_spec() as int,
    ));
}

} // verus!
