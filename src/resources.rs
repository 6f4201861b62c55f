use vstd::prelude::*;

verus! {

/// Bytes of one particle in the storage buffer: position and velocity, two
/// pairs of binary32 numbers.
pub const PARTICLE_BYTES: u64 = 16;

/// Bytes of one colour-map entry in the storage buffer: four binary32 channels.
pub const COLOR_BYTES: u64 = 16;

/// Number of entries of the colour map.
pub const COLORMAP_LEN: usize = 16;

/// One colour-map entry, eight bits per channel; the kernel reads each
/// channel as a number in `[0, 1]`.
#[derive(Clone, Copy, Debug, PartialEq, Eq, Structural)]
pub struct Rgba {
    pub r: u8,
    pub g: u8,
    pub b: u8,
    pub a: u8,
}

/// The colour map: a cyclic ramp from pale lilac through blue to a dark
/// purple and back through red, so that the first and last entries meet.
pub open spec fn colormap_table() -> Seq<Rgba> {
    seq![
        Rgba { r: 226, g: 217, b: 226, a: 255 },
        Rgba { r: 200, g: 208, b: 220, a: 255 },
        Rgba { r: 163, g: 186, b: 208, a: 255 },
        Rgba { r: 125, g: 160, b: 198, a: 255 },
        Rgba { r: 100, g: 128, b: 190, a: 255 },
        Rgba { r: 95, g: 93, b: 178, a: 255 },
        Rgba { r: 91, g: 58, b: 150, a: 255 },
        Rgba { r: 76, g: 32, b: 106, a: 255 },
        Rgba { r: 48, g: 20, b: 55, a: 255 },
        Rgba { r: 86, g: 28, b: 80, a: 255 },
        Rgba { r: 128, g: 40, b: 90, a: 255 },
        Rgba { r: 165, g: 64, b: 88, a: 255 },
        Rgba { r: 188, g: 100, b: 95, a: 255 },
        Rgba { r: 203, g: 140, b: 120, a: 255 },
        Rgba { r: 214, g: 180, b: 165, a: 255 },
        Rgba { r: 224, g: 208, b: 206, a: 255 },
    ]
}

/// The colour map, built once and never changed.
pub fn colormap() -> (r: Vec<Rgba>)
    ensures
        r@ == colormap_table(),
        r@.len() == COLORMAP_LEN,
{
    let r = vec![
        Rgba { r: 226, g: 217, b: 226, a: 255 },
        Rgba { r: 200, g: 208, b: 220, a: 255 },
        Rgba { r: 163, g: 186, b: 208, a: 255 },
        Rgba { r: 125, g: 160, b: 198, a: 255 },
        Rgba { r: 100, g: 128, b: 190, a: 255 },
        Rgba { r: 95, g: 93, b: 178, a: 255 },
        Rgba { r: 91, g: 58, b: 150, a: 255 },
        Rgba { r: 76, g: 32, b: 106, a: 255 },
        Rgba { r: 48, g: 20, b: 55, a: 255 },
        Rgba { r: 86, g: 28, b: 80, a: 255 },
        Rgba { r: 128, g: 40, b: 90, a: 255 },
        Rgba { r: 165, g: 64, b: 88, a: 255 },
        Rgba { r: 188, g: 100, b: 95, a: 255 },
        Rgba { r: 203, g: 140, b: 120, a: 255 },
        Rgba { r: 214, g: 180, b: 165, a: 255 },
        Rgba { r: 224, g: 208, b: 206, a: 255 },
    ];
    assert(r@ =~= colormap_table());
    r
}

/// Size in bytes of the colour-map storage buffer.
pub fn colormap_bytes() -> (r: u64)
    ensures
        r == COLORMAP_LEN * COLOR_BYTES,
{
    (COLORMAP_LEN as u64) * COLOR_BYTES
}

/// Size in bytes of the particle storage buffer of a `width` × `height` grid.
pub fn particle_buffer_bytes(width: u32, height: u32) -> (r: u64)
    requires
        width * height <= u32::MAX,
    ensures
        r == width * height * PARTICLE_BYTES,
{
    let cells = width * height;
    (cells as u64) * PARTICLE_BYTES
}

/// Shader stages that can see a binding.
#[derive(Clone, Copy, Debug, PartialEq, Eq, Structural)]
pub struct Stages {
    pub compute: bool,
    pub vertex: bool,
    pub fragment: bool,
}

/// What a binding gives the shader.
#[derive(Clone, Copy, Debug, PartialEq, Eq, Structural)]
pub enum BindingKind {
    /// A uniform buffer.
    Uniform,
    /// A storage buffer, writable unless `read_only`.
    Storage { read_only: bool },
    /// A two-dimensional RGBA8 image that the shader writes.
    StorageImageWrite,
    /// A two-dimensional filterable image that the shader samples.
    SampledImage,
    /// A filtering sampler.
    Sampler,
}

/// One entry of a bind-group layout.
#[derive(Clone, Copy, Debug, PartialEq, Eq, Structural)]
pub struct Binding {
    pub slot: u32,
    pub stages: Stages,
    pub kind: BindingKind,
}

/// Whether a binding of this kind lets the shader write.
pub open spec fn writable(kind: BindingKind) -> bool {
    match kind {
        BindingKind::Storage { read_only } => !read_only,
        BindingKind::StorageImageWrite => true,
        _ => false,
    }
}

pub open spec fn compute_only() -> Stages {
    Stages { compute: true, vertex: false, fragment: false }
}

pub open spec fn fragment_only() -> Stages {
    Stages { compute: false, vertex: false, fragment: true }
}

/// The layout of the simulation bind group: the parameters (also visible to
/// the render stages), the particles, the output image and the colour map.
pub open spec fn compute_layout() -> Seq<Binding> {
    seq![
        Binding {
            slot: 0,
            stages: Stages { compute: true, vertex: true, fragment: true },
            kind: BindingKind::Uniform,
        },
        Binding { slot: 1, stages: compute_only(), kind: BindingKind::Storage { read_only: false } },
        Binding { slot: 2, stages: compute_only(), kind: BindingKind::StorageImageWrite },
        Binding { slot: 3, stages: compute_only(), kind: BindingKind::Storage { read_only: true } },
    ]
}

/// The layout of the render bind group: the output image and its sampler.
pub open spec fn render_layout() -> Seq<Binding> {
    seq![
        Binding { slot: 0, stages: fragment_only(), kind: BindingKind::SampledImage },
        Binding { slot: 1, stages: fragment_only(), kind: BindingKind::Sampler },
    ]
}

pub fn compute_bindings() -> (r: Vec<Binding>)
    ensures
        r@ == compute_layout(),
{
    let all = Stages { compute: true, vertex: true, fragment: true };
    let comp = Stages { compute: true, vertex: false, fragment: false };
    let r = vec![
        Binding { slot: 0, stages: all, kind: BindingKind::Uniform },
        Binding { slot: 1, stages: comp, kind: BindingKind::Storage { read_only: false } },
        Binding { slot: 2, stages: comp, kind: BindingKind::StorageImageWrite },
        Binding { slot: 3, stages: comp, kind: BindingKind::Storage { read_only: true } },
    ];
    assert(r@ =~= compute_layout());
    r
}

pub fn render_bindings() -> (r: Vec<Binding>)
    ensures
        r@ == render_layout(),
{
    let frag = Stages { compute: false, vertex: false, fragment: true };
    let r = vec![
        Binding { slot: 0, stages: frag, kind: BindingKind::SampledImage },
        Binding { slot: 1, stages: frag, kind: BindingKind::Sampler },
    ];
    assert(r@ =~= render_layout());
    r
}

/// Only the compute stage may write: every writable binding of either layout
/// is visible to the compute stage alone, and the render layout holds no
/// writable binding. Slots within each layout are distinct.
pub proof fn lemma_only_compute_writes()
    ensures
        forall|i: int|
            0 <= i < compute_layout().len() && writable(#[trigger] compute_layout()[i].kind)
                ==> compute_layout()[i].stages == compute_only(),
        forall|i: int| 0 <= i < render_layout().len() ==> !writable(#[trigger] render_layout()[i].kind),
        forall|i: int, j: int|
            0 <= i < j < compute_layout().len() ==> compute_layout()[i].slot != compute_layout()[j].slot,
        forall|i: int, j: int|
            0 <= i < j < render_layout().len() ==> render_layout()[i].slot != render_layout()[j].slot,
{
}

/// One corner of the full-surface quad: clip-space position and texture
/// coordinate.
#[derive(Clone, Copy, Debug, PartialEq, Eq, Structural)]
pub struct QuadVertex {
    pub x: i8,
    pub y: i8,
    pub u: u8,
    pub v: u8,
}

/// The four corners of the full-surface quad in triangle-strip order.
pub open spec fn quad_spec() -> Seq<QuadVertex> {
    seq![
        QuadVertex { x: -1i8, y: -1i8, u: 0, v: 0 },
        QuadVertex { x: 1i8, y: -1i8, u: 1, v: 0 },
        QuadVertex { x: -1i8, y: 1i8, u: 0, v: 1 },
        QuadVertex { x: 1i8, y: 1i8, u: 1, v: 1 },
    ]
}

pub fn quad() -> (r: Vec<QuadVertex>)
    ensures
        r@ == quad_spec(),
{
    let r = vec![
        QuadVertex { x: -1, y: -1, u: 0, v: 0 },
        QuadVertex { x: 1, y: -1, u: 1, v: 0 },
        QuadVertex { x: -1, y: 1, u: 0, v: 1 },
        QuadVertex { x: 1, y: 1, u: 1, v: 1 },
    ];
    assert(r@ =~= quad_spec());
    r
}

} // verus!
