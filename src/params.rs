use vstd::prelude::*;

verus! {

/// Binary32 bit patterns of the constants that the parameter presets use.
pub const BITS_ZERO: u32 = 0x0000_0000;
pub const BITS_NEG_ZERO: u32 = 0x8000_0000;
pub const BITS_0_003: u32 = 0x3B44_9BA6;
pub const BITS_0_004: u32 = 0x3B83_126F;
pub const BITS_0_005: u32 = 0x3BA3_D70A;
pub const BITS_0_006: u32 = 0x3BC4_9BA6;
pub const BITS_0_008: u32 = 0x3C03_126F;
pub const BITS_0_05: u32 = 0x3D4C_CCCD;
pub const BITS_0_1: u32 = 0x3DCC_CCCD;
pub const BITS_0_15: u32 = 0x3E19_999A;
pub const BITS_0_2: u32 = 0x3E4C_CCCD;
pub const BITS_0_25: u32 = 0x3E80_0000;
pub const BITS_0_3: u32 = 0x3E99_999A;
pub const BITS_0_4: u32 = 0x3ECC_CCCD;
pub const BITS_0_6: u32 = 0x3F19_999A;
pub const BITS_0_8: u32 = 0x3F4C_CCCD;
pub const BITS_1_0: u32 = 0x3F80_0000;
pub const BITS_2_0: u32 = 0x4000_0000;
pub const BITS_2_5: u32 = 0x4020_0000;
pub const BITS_3_0: u32 = 0x4040_0000;
pub const BITS_3_5: u32 = 0x4060_0000;
pub const BITS_4_0: u32 = 0x4080_0000;
pub const BITS_5_0: u32 = 0x40A0_0000;
pub const BITS_6_0: u32 = 0x40C0_0000;
/// `π / 4`, rounded to binary32.
pub const BITS_QUARTER_PI: u32 = 0x3F49_0FDB;
/// `π / 2`, rounded to binary32.
pub const BITS_HALF_PI: u32 = 0x3FC9_0FDB;
/// `π`, rounded to binary32.
pub const BITS_PI: u32 = 0x4049_0FDB;

/// Number of 32-bit words in the uniform block; a multiple of four, so the
/// block is a multiple of 16 bytes as uniform buffers require.
pub const UNIFORM_WORDS: usize = 12;

/// Size in bytes of the uniform block.
pub const UNIFORM_BYTES: u64 = 48;

/// The tunable parameters of the simulation, in the order in which the
/// compute kernel reads them. Each real-valued field holds the bit pattern of
/// a binary32 number (`f32::to_bits`); `n`, the grid size and the pattern code
/// are plain integers.
#[derive(Clone, Copy, Debug, PartialEq, Eq, Structural)]
pub struct Params {
    /// Number of magnets on the ring.
    pub n: u32,
    /// Radius of the ring of magnets.
    pub r: u32,
    /// Softening distance of the magnets' force.
    pub d: u32,
    /// Friction coefficient.
    pub mu: u32,
    /// Restoring spring coefficient.
    pub c: u32,
    /// Integration time step; zero pauses the simulation.
    pub dt: u32,
    /// Width of the grid, in cells.
    pub w: u32,
    /// Height of the grid, in cells.
    pub h: u32,
    /// Magnitude of the initial velocity.
    pub velocity_magnitude: u32,
    /// Angle, in radians, by which initial velocities are turned.
    pub velocity_angle: u32,
    /// Code of the initial velocity pattern: 0 radial, 1 tangential,
    /// 2 uniform, anything else zero.
    pub velocity_pattern: u32,
}

/// The named parameter sets offered to the user.
#[derive(Clone, Copy, Debug, PartialEq, Eq, Structural)]
pub enum Preset {
    Chaotic,
    Smooth,
    Complex,
    Stable,
}

/// Whether a binary32 bit pattern is a zero (of either sign).
pub open spec fn is_zero_bits(x: u32) -> bool {
    x == BITS_ZERO || x == BITS_NEG_ZERO
}

impl Params {
    /// The defaults for a `width` × `height` grid.
    pub open spec fn defaults(width: u32, height: u32) -> Params {
        Params {
            n: 5,
            r: BITS_3_0,
            d: BITS_0_4,
            mu: BITS_0_2,
            c: BITS_0_2,
            dt: BITS_0_006,
            w: width,
            h: height,
            velocity_magnitude: BITS_4_0,
            velocity_angle: BITS_HALF_PI,
            velocity_pattern: 1,
        }
    }

    /// The uniform block: the fields in declaration order, then one word of
    /// padding.
    pub open spec fn words(&self) -> Seq<u32> {
        seq![
            self.n, self.r, self.d, self.mu, self.c, self.dt, self.w, self.h,
            self.velocity_magnitude, self.velocity_angle, self.velocity_pattern, 0u32,
        ]
    }

    /// `self` with the fields that a preset sets replaced by its values.
    pub open spec fn with_preset(self, preset: Preset) -> Params {
        let (n, r, d, mu, c, dt, m, a, p) = match preset {
            Preset::Chaotic => (3u32, BITS_2_5, BITS_0_2, BITS_0_05, BITS_0_1, BITS_0_008, BITS_6_0, BITS_ZERO, 0u32),
            Preset::Smooth => (5u32, BITS_4_0, BITS_0_6, BITS_0_4, BITS_0_3, BITS_0_004, BITS_2_0, BITS_QUARTER_PI, 1u32),
            Preset::Complex => (7u32, BITS_3_5, BITS_0_3, BITS_0_15, BITS_0_25, BITS_0_005, BITS_5_0, BITS_PI, 2u32),
            Preset::Stable => (4u32, BITS_3_0, BITS_0_8, BITS_0_6, BITS_0_4, BITS_0_003, BITS_1_0, BITS_ZERO, 3u32),
        };
        Params {
            n: n,
            r: r,
            d: d,
            mu: mu,
            c: c,
            dt: dt,
            velocity_magnitude: m,
            velocity_angle: a,
            velocity_pattern: p,
            ..self
        }
    }

    /// The default parameters for a `width` × `height` grid: five magnets on a
    /// ring of radius 3, tangential initial velocities of magnitude 4 turned
    /// by a quarter turn.
    pub fn default(width: u32, height: u32) -> (r: Params)
        ensures
            r == Params::defaults(width, height),
    {
        Params {
            n: 5,
            r: BITS_3_0,
            d: BITS_0_4,
            mu: BITS_0_2,
            c: BITS_0_2,
            dt: BITS_0_006,
            w: width,
            h: height,
            velocity_magnitude: BITS_4_0,
            velocity_angle: BITS_HALF_PI,
            velocity_pattern: 1,
        }
    }

    /// Whether the time step is zero, so that a compute pass leaves every
    /// particle where it is.
    pub fn is_paused(&self) -> (r: bool)
        ensures
            r == is_zero_bits(self.dt),
    {
        self.dt == BITS_ZERO || self.dt == BITS_NEG_ZERO
    }

    /// These parameters with a zero time step.
    pub fn paused(&self) -> (r: Params)
        ensures
            r == (Params { dt: BITS_ZERO, ..*self }),
    {
        Params { dt: BITS_ZERO, ..*self }
    }

    /// Sets the fields that `preset` names and keeps the grid size.
    pub fn apply_preset(&mut self, preset: Preset)
        ensures
            *final(self) == old(self).with_preset(preset),
    {
        match preset {
            Preset::Chaotic => {
                self.n = 3;
                self.r = BITS_2_5;
                self.d = BITS_0_2;
                self.mu = BITS_0_05;
                self.c = BITS_0_1;
                self.dt = BITS_0_008;
                self.velocity_magnitude = BITS_6_0;
                self.velocity_angle = BITS_ZERO;
                self.velocity_pattern = 0;
            },
            Preset::Smooth => {
                self.n = 5;
                self.r = BITS_4_0;
                self.d = BITS_0_6;
                self.mu = BITS_0_4;
                self.c = BITS_0_3;
                self.dt = BITS_0_004;
                self.velocity_magnitude = BITS_2_0;
                self.velocity_angle = BITS_QUARTER_PI;
                self.velocity_pattern = 1;
            },
            Preset::Complex => {
                self.n = 7;
                self.r = BITS_3_5;
                self.d = BITS_0_3;
                self.mu = BITS_0_15;
                self.c = BITS_0_25;
                self.dt = BITS_0_005;
                self.velocity_magnitude = BITS_5_0;
                self.velocity_angle = BITS_PI;
                self.velocity_pattern = 2;
            },
            Preset::Stable => {
                self.n = 4;
                self.r = BITS_3_0;
                self.d = BITS_0_8;
                self.mu = BITS_0_6;
                self.c = BITS_0_4;
                self.dt = BITS_0_003;
                self.velocity_magnitude = BITS_1_0;
                self.velocity_angle = BITS_ZERO;
                self.velocity_pattern = 3;
            },
        }
    }

    /// The uniform block as the kernel reads it: every field in declaration
    /// order followed by one padding word, twelve words or 48 bytes.
    pub fn to_words(&self) -> (r: Vec<u32>)
        ensures
            r@ == self.words(),
            r@.len() == UNIFORM_WORDS,
            r@.len() % 4 == 0,
    {
        let r = vec![
            self.n, self.r, self.d, self.mu, self.c, self.dt, self.w, self.h,
            self.velocity_magnitude, self.velocity_angle, self.velocity_pattern, 0u32,
        ];
        assert(r@ =~= self.words());
        r
    }
}

} // verus!
