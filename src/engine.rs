use vstd::prelude::*;
use crate::params::{Params, is_zero_bits, BITS_ZERO};
use crate::seed::{Scale, Seed, seed_at, seeds_of, heading_at, lemma_cell_in_grid};
use crate::resources::{
    Binding, QuadVertex, Rgba, PARTICLE_BYTES, COLORMAP_LEN, COLOR_BYTES, colormap_table,
    compute_layout, render_layout, quad_spec, colormap, colormap_bytes, particle_buffer_bytes,
    compute_bindings, render_bindings, quad,
};

verus! {

/// The simulation engine as the host sees it: the live parameters, the grid
/// and scale that the particle buffer was made for, and what that buffer
/// holds — the parameters it was last seeded with and the number of compute
/// passes with a nonzero time step run on it since.
#[derive(Clone, Copy, Debug)]
pub struct GPUSim {
    /// The parameters that the next frame uploads; the host edits them freely.
    pub params: Params,
    scale: Scale,
    width: u32,
    height: u32,
    seeded: Params,
    steps: u64,
}

/// Everything the device builds for a new engine: the contents and sizes of
/// its buffers, the size of the output image and the two bind-group layouts.
pub struct ResourcePlan {
    /// Initial contents of the uniform buffer.
    pub uniform: Vec<u32>,
    /// Initial particle field.
    pub particles: Vec<Seed>,
    /// Size in bytes of the particle storage buffer.
    pub particle_bytes: u64,
    /// Contents of the read-only colour-map buffer.
    pub colormap: Vec<Rgba>,
    /// Size in bytes of the colour-map buffer.
    pub colormap_bytes: u64,
    /// Width of the output image, one texel per particle.
    pub image_width: u32,
    /// Height of the output image.
    pub image_height: u32,
    /// The full-surface quad of the vertex buffer.
    pub quad: Vec<QuadVertex>,
    /// Layout of the simulation bind group.
    pub compute_bindings: Vec<Binding>,
    /// Layout of the render bind group.
    pub render_bindings: Vec<Binding>,
}

/// The compute pass of one frame: the uniform block to upload, then one
/// workgroup per particle.
pub struct ComputePass {
    pub uniform: Vec<u32>,
    pub groups_x: u32,
    pub groups_y: u32,
    pub groups_z: u32,
}

/// The draw of one frame: the quad as a triangle strip, one instance.
#[derive(Clone, Copy, Debug, PartialEq, Eq, Structural)]
pub struct DrawCall {
    pub vertex_count: u32,
    pub instance_count: u32,
}

impl GPUSim {
    /// The live parameters.
    pub closed spec fn params_spec(self) -> Params {
        self.params
    }

    pub closed spec fn width_spec(self) -> u32 {
        self.width
    }

    pub closed spec fn height_spec(self) -> u32 {
        self.height
    }

    pub closed spec fn scale_spec(self) -> Scale {
        self.scale
    }

    /// The parameters the particle field was last seeded with.
    pub closed spec fn seeded_spec(self) -> Params {
        self.seeded
    }

    /// Compute passes with a nonzero time step run on the field since it was
    /// seeded (saturating).
    pub closed spec fn steps_spec(self) -> u64 {
        self.steps
    }

    /// The grid's cell count fits the 32-bit indices of the kernel.
    pub closed spec fn wf(self) -> bool {
        self.width * self.height <= u32::MAX
    }

    /// A freshly built engine on a `width` × `height` grid at scale `scale`
    /// whose parameters were `p` from the start: its field seeded from `p`,
    /// no step taken yet. `new` builds it with the default parameters.
    pub closed spec fn built_with(width: u32, height: u32, scale: Scale, p: Params) -> GPUSim {
        GPUSim { params: p, scale, width, height, seeded: p, steps: 0 }
    }

    /// The engine after the host set its live parameters to `p`.
    pub closed spec fn with_params(self, p: Params) -> GPUSim {
        GPUSim { params: p, ..self }
    }

    /// The particle field as it was seeded.
    pub open spec fn field(self) -> Seq<Seed> {
        seeds_of(self.width_spec(), self.height_spec(), self.scale_spec(), self.seeded_spec().velocity_pattern)
    }

    /// The engine after a restart: reseeded from the live parameters.
    pub closed spec fn restarted(self) -> GPUSim {
        GPUSim { seeded: self.params, steps: 0, ..self }
    }

    /// The parameters that a frame uploads: the live ones, with a zero time
    /// step while paused.
    pub open spec fn frame_params(self, paused: bool) -> Params {
        if paused {
            Params { dt: BITS_ZERO, ..self.params_spec() }
        } else {
            self.params_spec()
        }
    }

    /// The engine after one frame's compute pass: a pass with a zero time step
    /// leaves every particle where it is.
    pub closed spec fn prepared(self, paused: bool) -> GPUSim {
        if is_zero_bits(self.frame_params(paused).dt) || self.steps == u64::MAX {
            self
        } else {
            GPUSim { steps: (self.steps + 1) as u64, ..self }
        }
    }

    /// Seeds a `width` × `height` field at scale `scale` with the velocity
    /// pattern of `params`: one particle per cell, in row-major order.
    pub fn create_particles(width: u32, height: u32, scale: Scale, params: &Params) -> (r: Vec<Seed>)
        requires
            width * height <= u32::MAX,
        ensures
            r@ == seeds_of(width, height, scale, params.velocity_pattern),
    {
        let total: u32 = width * height;
        let mut out: Vec<Seed> = Vec::new();
        let mut i: u32 = 0;
        while i < total
            invariant
                total == width * height,
                width * height <= u32::MAX,
                i <= total,
                out@.len() == i,
                forall|k: int|
                    0 <= k < i ==> out@[k] == seed_at(width, height, scale, params.velocity_pattern, k),
            decreases total - i,
        {
            proof {
                if width == 0 {
                    assert(width * height == 0);
                }
                lemma_cell_in_grid(i as int, width as int, height as int);
            }
            let col = i % width;
            let row = i / width;
            let heading = heading_at(col, row, width, height, scale, params.velocity_pattern);
            out.push(Seed { col, row, heading });
            i = i + 1;
        }
        assert(out@ =~= seeds_of(width, height, scale, params.velocity_pattern));
        out
    }

    /// A new engine on a `width` × `height` grid at scale `scale`, with the
    /// default parameters, its particle field seeded from them.
    pub fn new(width: u32, height: u32, scale: Scale) -> (r: GPUSim)
        requires
            width * height <= u32::MAX,
        ensures
            r == GPUSim::built_with(width, height, scale, Params::defaults(width, height)),
            r.wf(),
            r.params_spec() == Params::defaults(width, height),
            r.seeded_spec() == Params::defaults(width, height),
            r.width_spec() == width,
            r.height_spec() == height,
            r.scale_spec() == scale,
            r.steps_spec() == 0,
    {
        let params = Params::default(width, height);
        GPUSim { params, scale, width, height, seeded: params, steps: 0 }
    }

    pub fn width(&self) -> (r: u32)
        ensures
            r == self.width_spec(),
    {
        self.width
    }

    pub fn height(&self) -> (r: u32)
        ensures
            r == self.height_spec(),
    {
        self.height
    }

    pub fn scale(&self) -> (r: Scale)
        ensures
            r == self.scale_spec(),
    {
        self.scale
    }

    /// The parameters the particle field was last seeded with.
    pub fn seeded_params(&self) -> (r: Params)
        ensures
            r == self.seeded_spec(),
    {
        self.seeded
    }

    /// Compute passes with a nonzero time step since the field was seeded.
    pub fn steps(&self) -> (r: u64)
        ensures
            r == self.steps_spec(),
    {
        self.steps
    }

    /// The particle field as it was seeded.
    pub fn particles(&self) -> (r: Vec<Seed>)
        requires
            self.wf(),
        ensures
            r@ == self.field(),
    {
        GPUSim::create_particles(self.width, self.height, self.scale, &self.seeded)
    }

    /// Size in bytes of the particle storage buffer.
    pub fn particle_bytes(&self) -> (r: u64)
        requires
            self.wf(),
        ensures
            r == self.width_spec() * self.height_spec() * PARTICLE_BYTES,
    {
        particle_buffer_bytes(self.width, self.height)
    }

    /// What the device must build for this engine: a uniform buffer with the
    /// live parameters, a particle buffer with the seeded field, the colour
    /// map, a `width` × `height` output image, the quad and both layouts.
    pub fn resources(&self) -> (r: ResourcePlan)
        requires
            self.wf(),
        ensures
            r.uniform@ == self.params_spec().words(),
            r.particles@ == self.field(),
            r.particle_bytes == self.width_spec() * self.height_spec() * PARTICLE_BYTES,
            r.colormap@ == colormap_table(),
            r.colormap_bytes == COLORMAP_LEN * COLOR_BYTES,
            r.image_width == self.width_spec(),
            r.image_height == self.height_spec(),
            r.quad@ == quad_spec(),
            r.compute_bindings@ == compute_layout(),
            r.render_bindings@ == render_layout(),
    {
        ResourcePlan {
            uniform: self.params.to_words(),
            particles: self.particles(),
            particle_bytes: self.particle_bytes(),
            colormap: colormap(),
            colormap_bytes: colormap_bytes(),
            image_width: self.width,
            image_height: self.height,
            quad: quad(),
            compute_bindings: compute_bindings(),
            render_bindings: render_bindings(),
        }
    }

    /// Reseeds the particle field from the live parameters on the same grid
    /// and scale, and returns the new field, which replaces the particle
    /// buffer (and so the simulation bind group). Nothing else changes.
    pub fn restart(&mut self) -> (r: Vec<Seed>)
        requires
            old(self).wf(),
        ensures
            *final(self) == old(self).restarted(),
            final(self).wf(),
            final(self).params_spec() == old(self).params_spec(),
            final(self).seeded_spec() == old(self).params_spec(),
            final(self).steps_spec() == 0,
            final(self).width_spec() == old(self).width_spec(),
            final(self).height_spec() == old(self).height_spec(),
            final(self).scale_spec() == old(self).scale_spec(),
            r@ == final(self).field(),
            r@ == seeds_of(
                old(self).width_spec(),
                old(self).height_spec(),
                old(self).scale_spec(),
                old(self).params_spec().velocity_pattern,
            ),
    {
        self.seeded = self.params;
        self.steps = 0;
        self.particles()
    }

    /// One frame's compute pass: uploads the live parameters verbatim (with a
    /// zero time step while `paused`) and runs one workgroup per particle.
    pub fn prepare(&mut self, paused: bool) -> (r: ComputePass)
        requires
            old(self).wf(),
        ensures
            *final(self) == old(self).prepared(paused),
            final(self).wf(),
            final(self).params_spec() == old(self).params_spec(),
            final(self).seeded_spec() == old(self).seeded_spec(),
            final(self).width_spec() == old(self).width_spec(),
            final(self).height_spec() == old(self).height_spec(),
            final(self).scale_spec() == old(self).scale_spec(),
            final(self).steps_spec() == if is_zero_bits(old(self).frame_params(paused).dt)
                || old(self).steps_spec() == u64::MAX {
                old(self).steps_spec()
            } else {
                (old(self).steps_spec() + 1) as u64
            },
            r.uniform@ == old(self).frame_params(paused).words(),
            r.groups_x == old(self).width_spec(),
            r.groups_y == old(self).height_spec(),
            r.groups_z == 1,
    {
        let params = if paused {
            self.params.paused()
        } else {
            self.params
        };
        if !params.is_paused() && self.steps < u64::MAX {
            self.steps = self.steps + 1;
        }
        ComputePass { uniform: params.to_words(), groups_x: self.width, groups_y: self.height, groups_z: 1 }
    }

    /// One frame's draw: the output image as the four-vertex strip of the
    /// quad, one instance.
    pub fn paint(&self) -> (r: DrawCall)
        ensures
            r == (DrawCall { vertex_count: 4, instance_count: 1 }),
    {
        DrawCall { vertex_count: 4, instance_count: 1 }
    }
}

/// Seeding is a pure function of the grid, the scale and the parameters'
/// velocity pattern: parameter sets that agree on the pattern, whatever their
/// other fields, seed the same field, and so do two calls with the same
/// arguments.
pub proof fn lemma_seeding_is_pure(width: u32, height: u32, scale: Scale, p: Params, q: Params)
    requires
        p.velocity_pattern == q.velocity_pattern,
    ensures
        seeds_of(width, height, scale, p.velocity_pattern) == seeds_of(
            width,
            height,
            scale,
            q.velocity_pattern,
        ),
{
}

/// A restart leaves the engine exactly as a freshly built engine on the same
/// grid and scale whose parameters were the live ones from the start: the
/// same particle field, and so the same compute pass and image on every
/// later frame.
pub proof fn lemma_restart_is_fresh(sim: GPUSim, paused: bool)
    ensures
        sim.restarted() == GPUSim::built_with(
            sim.width_spec(),
            sim.height_spec(),
            sim.scale_spec(),
            sim.params_spec(),
        ),
        sim.restarted().field() == GPUSim::built_with(
            sim.width_spec(),
            sim.height_spec(),
            sim.scale_spec(),
            sim.params_spec(),
        ).field(),
        sim.restarted().prepared(paused) == GPUSim::built_with(
            sim.width_spec(),
            sim.height_spec(),
            sim.scale_spec(),
            sim.params_spec(),
        ).prepared(paused),
        sim.restarted().frame_params(paused) == GPUSim::built_with(
            sim.width_spec(),
            sim.height_spec(),
            sim.scale_spec(),
            sim.params_spec(),
        ).frame_params(paused),
{
}

/// A frame with a zero time step (every paused frame among them) leaves the
/// particle field as it was, so repeating it uploads the same block and
/// renders the same image.
pub proof fn lemma_zero_step_is_idle(sim: GPUSim, paused: bool)
    requires
        paused || is_zero_bits(sim.params_spec().dt),
    ensures
        sim.prepared(paused) == sim,
        sim.prepared(paused).frame_params(paused) == sim.frame_params(paused),
        sim.prepared(paused).prepared(paused) == sim,
{
}

/// Editing the live parameters (the magnet count among them) between frames
/// leaves the particle field untouched until the next restart; the next frame
/// uploads the edited block.
pub proof fn lemma_edit_keeps_field(sim: GPUSim, p: Params)
    ensures
        sim.with_params(p).field() == sim.field(),
        sim.with_params(p).seeded_spec() == sim.seeded_spec(),
        sim.with_params(p).steps_spec() == sim.steps_spec(),
        sim.with_params(p).frame_params(false).words() == p.words(),
        sim.with_params(p).params_spec() == p,
        sim.with_params(p).width_spec() == sim.width_spec(),
        sim.with_params(p).height_spec() == sim.height_spec(),
        sim.with_params(p).scale_spec() == sim.scale_spec(),
{
}

/// Changing only the magnet count changes only the first word of the next
/// uniform block, and not the particle field.
pub proof fn lemma_magnet_count_edit(sim: GPUSim, n: u32, paused: bool)
    ensures
        sim.with_params(Params { n, ..sim.params_spec() }).field() == sim.field(),
        sim.with_params(Params { n, ..sim.params_spec() }).frame_params(paused).words()
            == sim.frame_params(paused).words().update(0, n),
{
    assert(sim.with_params(Params { n, ..sim.params_spec() }).frame_params(paused).words()
        =~= sim.frame_params(paused).words().update(0, n));
}

} // verus!
