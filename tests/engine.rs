use gpu_sim::engine::GPUSim;
use gpu_sim::params::{Params, Preset};
use gpu_sim::resources::{
    colormap, colormap_bytes, compute_bindings, particle_buffer_bytes, quad, render_bindings,
    BindingKind,
};
use gpu_sim::seed::{cell_offset, is_near_origin, Heading, Scale, Seed, VelocityPattern};

fn f(bits: u32) -> f32 {
    f32::from_bits(bits)
}

#[test]
fn default_parameters() {
    let p = Params::default(1024, 768);
    assert_eq!(p.n, 5);
    assert_eq!(f(p.r), 3.0);
    assert_eq!(f(p.d), 0.4);
    assert_eq!(f(p.mu), 0.2);
    assert_eq!(f(p.c), 0.2);
    assert_eq!(f(p.dt), 0.006);
    assert_eq!(p.w, 1024);
    assert_eq!(p.h, 768);
    assert_eq!(f(p.velocity_magnitude), 4.0);
    assert_eq!(f(p.velocity_angle), std::f32::consts::PI / 2.0);
    assert_eq!(p.velocity_pattern, 1);
}

#[test]
fn uniform_block_layout() {
    let mut p = Params::default(7, 9);
    p.velocity_pattern = 2;
    let w = p.to_words();
    assert_eq!(w.len(), 12);
    assert_eq!(w.len() * 4 % 16, 0);
    assert_eq!(
        w,
        vec![
            5,
            3.0f32.to_bits(),
            0.4f32.to_bits(),
            0.2f32.to_bits(),
            0.2f32.to_bits(),
            0.006f32.to_bits(),
            7,
            9,
            4.0f32.to_bits(),
            (std::f32::consts::PI / 2.0).to_bits(),
            2,
            0
        ]
    );
}

#[test]
fn presets_keep_grid() {
    let mut p = Params::default(10, 20);
    p.apply_preset(Preset::Chaotic);
    assert_eq!((p.n, f(p.r), f(p.d), f(p.mu), f(p.c), f(p.dt)), (3, 2.5, 0.2, 0.05, 0.1, 0.008));
    assert_eq!((f(p.velocity_magnitude), f(p.velocity_angle), p.velocity_pattern), (6.0, 0.0, 0));
    p.apply_preset(Preset::Smooth);
    assert_eq!((p.n, f(p.r), f(p.d), f(p.mu), f(p.c), f(p.dt)), (5, 4.0, 0.6, 0.4, 0.3, 0.004));
    assert_eq!(
        (f(p.velocity_magnitude), f(p.velocity_angle), p.velocity_pattern),
        (2.0, std::f32::consts::PI / 4.0, 1)
    );
    p.apply_preset(Preset::Complex);
    assert_eq!((p.n, f(p.r), f(p.d), f(p.mu), f(p.c), f(p.dt)), (7, 3.5, 0.3, 0.15, 0.25, 0.005));
    assert_eq!(
        (f(p.velocity_magnitude), f(p.velocity_angle), p.velocity_pattern),
        (5.0, std::f32::consts::PI, 2)
    );
    p.apply_preset(Preset::Stable);
    assert_eq!((p.n, f(p.r), f(p.d), f(p.mu), f(p.c), f(p.dt)), (4, 3.0, 0.8, 0.6, 0.4, 0.003));
    assert_eq!((f(p.velocity_magnitude), f(p.velocity_angle), p.velocity_pattern), (1.0, 0.0, 3));
    assert_eq!((p.w, p.h), (10, 20));
}

#[test]
fn pause_is_a_zero_step() {
    let p = Params::default(2, 2);
    assert!(!p.is_paused());
    let q = p.paused();
    assert!(q.is_paused());
    assert_eq!(f(q.dt), 0.0);
    assert_eq!(q.n, p.n);
    let mut z = p;
    z.dt = (-0.0f32).to_bits();
    assert!(z.is_paused());
}

#[test]
fn pattern_codes() {
    assert_eq!(VelocityPattern::from_code(0), VelocityPattern::Radial);
    assert_eq!(VelocityPattern::from_code(1), VelocityPattern::Tangential);
    assert_eq!(VelocityPattern::from_code(2), VelocityPattern::Uniform);
    assert_eq!(VelocityPattern::from_code(3), VelocityPattern::Zero);
    assert_eq!(VelocityPattern::from_code(77), VelocityPattern::Zero);
}

#[test]
fn scale_needs_a_denominator() {
    assert!(Scale::new(1, 0).is_none());
    let s = Scale::new(3, 4).unwrap();
    assert_eq!((s.num(), s.den()), (3, 4));
    let t = Scale::whole(25);
    assert_eq!((t.num(), t.den()), (25, 1));
}

fn with_pattern(code: u32) -> Params {
    let mut p = Params::default(4, 4);
    p.velocity_pattern = code;
    p
}

#[test]
fn seeding_is_pure() {
    let s = Scale::whole(25);
    let mut p = with_pattern(0);
    let a = GPUSim::create_particles(5, 3, s, &p);
    let b = GPUSim::create_particles(5, 3, s, &p);
    assert_eq!(a, b);
    p.n = 9;
    p.velocity_magnitude = 1.5f32.to_bits();
    p.velocity_angle = 0.3f32.to_bits();
    assert_eq!(GPUSim::create_particles(5, 3, s, &p), a);
}

#[test]
fn seeding_is_row_major() {
    let seeds = GPUSim::create_particles(3, 2, Scale::whole(1), &with_pattern(3));
    assert_eq!(seeds.len(), 6);
    let cells: Vec<(u32, u32)> = seeds.iter().map(|s| (s.col, s.row)).collect();
    assert_eq!(cells, vec![(0, 0), (1, 0), (2, 0), (0, 1), (1, 1), (2, 1)]);
}

#[test]
fn empty_grid_has_no_particles() {
    assert!(GPUSim::create_particles(0, 5, Scale::whole(1), &with_pattern(0)).is_empty());
    assert!(GPUSim::create_particles(5, 0, Scale::whole(1), &with_pattern(0)).is_empty());
}

#[test]
fn zero_pattern_is_at_rest() {
    for code in [3u32, 4, 1000] {
        let seeds = GPUSim::create_particles(4, 4, Scale::whole(1), &with_pattern(code));
        assert_eq!(seeds.len(), 16);
        assert!(seeds.iter().all(|s| s.heading == Heading::Still));
    }
}

#[test]
fn uniform_pattern_follows_angle() {
    let seeds = GPUSim::create_particles(4, 4, Scale::whole(1), &with_pattern(2));
    assert!(seeds.iter().all(|s| s.heading == Heading::Angle));
}

#[test]
fn centre_cell_falls_back() {
    let radial = GPUSim::create_particles(4, 4, Scale::whole(1), &with_pattern(0));
    let tangential = GPUSim::create_particles(4, 4, Scale::whole(1), &with_pattern(1));
    assert_eq!(radial[10], Seed { col: 2, row: 2, heading: Heading::Angle });
    assert_eq!(tangential[10], Seed { col: 2, row: 2, heading: Heading::AngleQuarter });
    for (i, (r, t)) in radial.iter().zip(tangential.iter()).enumerate() {
        if i != 10 {
            assert_eq!(r.heading, Heading::Outward);
            assert_eq!(t.heading, Heading::Across);
        }
    }
}

#[test]
fn near_origin_boundary() {
    // Cell (0, 1) of a 1 x 2 grid at scale 1/500 sits at (-0.001, 0): on the
    // boundary, which still takes the fallback.
    let s = Scale::new(1, 500).unwrap();
    assert!(is_near_origin(0, 1, 1, 2, s));
    // Cell (0, 0) of the same grid sits at (-0.001, -0.001).
    assert!(!is_near_origin(0, 0, 1, 2, s));
    let seeds = GPUSim::create_particles(1, 2, s, &with_pattern(0));
    assert_eq!(seeds[0].heading, Heading::Outward);
    assert_eq!(seeds[1].heading, Heading::Angle);
    // At scale 1/1000 the whole 2 x 2 grid lies within 1/1000 of the origin.
    let tiny = Scale::new(1, 1000).unwrap();
    let seeds = GPUSim::create_particles(2, 2, tiny, &with_pattern(1));
    assert!(seeds.iter().all(|s| s.heading == Heading::AngleQuarter));
}

#[test]
fn near_origin_on_a_large_grid() {
    let s = Scale::new(u16::MAX, 1).unwrap();
    assert!(is_near_origin(32768, 32768, 65536, 65535 / 2 * 2, Scale::whole(0)));
    assert!(!is_near_origin(0, 0, 65536, 65535, s));
}

#[test]
fn offsets_are_centred() {
    assert_eq!(cell_offset(0, 4, Scale::whole(1)), (-4, 8));
    assert_eq!(cell_offset(2, 4, Scale::whole(1)), (0, 8));
    assert_eq!(cell_offset(3, 4, Scale::new(5, 2).unwrap()), (10, 16));
    let (n, d) = cell_offset(0, 1024, Scale::whole(25));
    assert_eq!(n as f64 / d as f64, -12.5);
}

#[test]
fn default_engine_first_particle() {
    let sim = GPUSim::new(4, 4, Scale::whole(1));
    assert_eq!(sim.params, Params::default(4, 4));
    let seeds = sim.particles();
    assert_eq!(seeds.len(), 16);
    assert_eq!(seeds[0], Seed { col: 0, row: 0, heading: Heading::Across });
    let (xn, xd) = cell_offset(seeds[0].col, 4, sim.scale());
    let (yn, yd) = cell_offset(seeds[0].row, 4, sim.scale());
    assert_eq!((xn as f32 / xd as f32, yn as f32 / yd as f32), (-0.5, -0.5));
    assert_eq!(f(sim.params.velocity_magnitude), 4.0);
    assert_eq!(f(sim.params.velocity_angle), std::f32::consts::PI / 2.0);
}

#[test]
fn resources_of_a_new_engine() {
    let sim = GPUSim::new(3, 2, Scale::whole(25));
    let r = sim.resources();
    assert_eq!(r.uniform, sim.params.to_words());
    assert_eq!(r.particles, GPUSim::create_particles(3, 2, Scale::whole(25), &sim.params));
    assert_eq!(r.particle_bytes, 96);
    assert_eq!(r.colormap.len(), 16);
    assert_eq!(r.colormap_bytes, 256);
    assert_eq!((r.image_width, r.image_height), (3, 2));
    assert_eq!(r.quad.len(), 4);
    assert_eq!(r.compute_bindings.len(), 4);
    assert_eq!(r.render_bindings.len(), 2);
}

#[test]
fn buffer_sizes() {
    assert_eq!(particle_buffer_bytes(1024, 1024), 16 * 1024 * 1024);
    assert_eq!(particle_buffer_bytes(65535, 65537), 65535 * 65537 * 16);
    assert_eq!(colormap_bytes(), 256);
    assert_eq!(colormap().len(), 16);
}

#[test]
fn layouts() {
    let c = compute_bindings();
    assert_eq!(c.iter().map(|b| b.slot).collect::<Vec<_>>(), vec![0, 1, 2, 3]);
    assert_eq!(c[0].kind, BindingKind::Uniform);
    assert!(c[0].stages.compute && c[0].stages.vertex && c[0].stages.fragment);
    assert_eq!(c[1].kind, BindingKind::Storage { read_only: false });
    assert_eq!(c[2].kind, BindingKind::StorageImageWrite);
    assert_eq!(c[3].kind, BindingKind::Storage { read_only: true });
    for b in &c[1..] {
        assert!(b.stages.compute && !b.stages.vertex && !b.stages.fragment);
    }
    let r = render_bindings();
    assert_eq!(r[0].kind, BindingKind::SampledImage);
    assert_eq!(r[1].kind, BindingKind::Sampler);
    assert!(r.iter().all(|b| b.stages.fragment && !b.stages.compute && !b.stages.vertex));
}

#[test]
fn quad_is_a_strip() {
    let q = quad();
    let corners: Vec<(i8, i8, u8, u8)> = q.iter().map(|v| (v.x, v.y, v.u, v.v)).collect();
    assert_eq!(corners, vec![(-1, -1, 0, 0), (1, -1, 1, 0), (-1, 1, 0, 1), (1, 1, 1, 1)]);
}

#[test]
fn frame_protocol() {
    let mut sim = GPUSim::new(6, 5, Scale::whole(2));
    let pass = sim.prepare(false);
    assert_eq!(pass.uniform, sim.params.to_words());
    assert_eq!((pass.groups_x, pass.groups_y, pass.groups_z), (6, 5, 1));
    assert_eq!(sim.steps(), 1);
    let draw = sim.paint();
    assert_eq!((draw.vertex_count, draw.instance_count), (4, 1));
}

#[test]
fn paused_frames_are_idle() {
    let mut sim = GPUSim::new(4, 4, Scale::whole(1));
    sim.prepare(false);
    let before = sim.steps();
    let a = sim.prepare(true);
    let b = sim.prepare(true);
    assert_eq!(a.uniform, b.uniform);
    assert_eq!(f(a.uniform[5]), 0.0);
    assert_eq!(sim.steps(), before);
    sim.params.dt = 0;
    let c = sim.prepare(false);
    assert_eq!(c.uniform, a.uniform);
    assert_eq!(sim.steps(), before);
}

#[test]
fn restart_matches_fresh_engine() {
    let mut sim = GPUSim::new(4, 4, Scale::whole(3));
    sim.prepare(false);
    sim.prepare(false);
    sim.params.apply_preset(Preset::Chaotic);
    let fresh_seeds = GPUSim::create_particles(4, 4, Scale::whole(3), &sim.params);
    let seeds = sim.restart();
    assert_eq!(seeds, fresh_seeds);
    assert_eq!(sim.steps(), 0);
    assert_eq!(sim.seeded_params(), sim.params);
    assert_eq!(sim.particles(), fresh_seeds);
    assert_eq!(sim.resources().particles, fresh_seeds);
    let pass = sim.prepare(true);
    assert_eq!(pass.uniform, sim.params.paused().to_words());
}

#[test]
fn magnet_count_edit_keeps_field() {
    let mut sim = GPUSim::new(4, 4, Scale::whole(1));
    let seeds = sim.particles();
    sim.params.n = 3;
    sim.params.velocity_pattern = 3;
    assert_eq!(sim.particles(), seeds);
    let pass = sim.prepare(false);
    assert_eq!(pass.uniform[0], 3);
    assert_eq!(sim.seeded_params().n, 5);
    sim.restart();
    assert!(sim.particles().iter().all(|s| s.heading == Heading::Still));
}
