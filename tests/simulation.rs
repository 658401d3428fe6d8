use xpbd_neohookean::fixed::Fixed;
use xpbd_neohookean::linalg::{Mat3, Vec3};
use xpbd_neohookean::mesh::edge_indexes;
use xpbd_neohookean::rest::{edge_matrix_of, inverse_masses, lumped_masses, rest_element_of, volume_of};
use xpbd_neohookean::system::{Grab, System, SystemParameters};

fn fx(x: f64) -> Fixed {
    Fixed { raw: (x * 4294967296.0).round() as i64 }
}

fn val(f: Fixed) -> f64 {
    f.raw as f64 / 4294967296.0
}

fn v(x: f64, y: f64, z: f64) -> Vec3 {
    Vec3::new(fx(x), fx(y), fx(z))
}

fn dist(a: Vec3, b: Vec3) -> f64 {
    let d = [val(a.x) - val(b.x), val(a.y) - val(b.y), val(a.z) - val(b.z)];
    (d[0] * d[0] + d[1] * d[1] + d[2] * d[2]).sqrt()
}

/// A regular tetrahedron of edge length 2·√2·s centred at height `h`.
fn regular_tet(s: f64, h: f64) -> Vec<Vec3> {
    vec![
        v(s, h + s, s),
        v(s, h - s, -s),
        v(-s, h + s, -s),
        v(-s, h - s, s),
    ]
}

/// Two tetrahedra sharing a face, plus one unconnected vertex.
fn two_tets() -> (Vec<Vec3>, Vec<[usize; 4]>) {
    let pos = vec![
        v(0.0, 1.0, 0.0),
        v(1.0, 1.0, 0.0),
        v(0.0, 2.0, 0.0),
        v(0.0, 1.0, 1.0),
        v(1.0, 2.0, 1.0),
        v(3.0, 3.0, 3.0),
    ];
    (pos, vec![[0, 1, 2, 3], [1, 2, 3, 4]])
}

fn zero_gravity(sys: &mut System) {
    sys.par.gravity = Vec3::zero();
}

#[test]
fn default_parameters() {
    let p = SystemParameters::default();
    assert_eq!(p.num_substeps, 50);
    assert!((val(p.time_step) - 0.1 / 60.0).abs() < 1e-9);
    assert!((val(p.dev_compliance) - 0.001).abs() < 1e-9);
    assert!((val(p.vol_compliance) - 0.001).abs() < 1e-9);
    assert_eq!(p.density, Fixed::from_int(1));
    assert_eq!(p.gravity, v(0.0, -100.0, 0.0));
    assert_eq!(p.world_bounds.0, v(-5.0, 0.0, -5.0));
    assert_eq!(p.world_bounds.1, v(5.0, 10.0, 5.0));
}

#[test]
fn rest_state_of_unit_corner_tet() {
    let pos = vec![v(0.0, 0.0, 0.0), v(1.0, 0.0, 0.0), v(0.0, 1.0, 0.0), v(0.0, 0.0, 1.0)];
    let e = rest_element_of(&pos, [0, 1, 2, 3]);
    assert!(e.active);
    assert_eq!(e.inv_rest_pose, Mat3::from_columns(v(1.0, 0.0, 0.0), v(0.0, 1.0, 0.0), v(0.0, 0.0, 1.0)));
    let p = edge_matrix_of(&pos, [0, 1, 2, 3]);
    assert!((val(volume_of(&p)) - 1.0 / 6.0).abs() < 1e-9);
    let m = lumped_masses(&pos, &vec![[0, 1, 2, 3]], Fixed::from_int(2));
    for i in 0..4 {
        assert!((val(m[i]) - 2.0 / 24.0).abs() < 1e-8);
    }
    let im = inverse_masses(&m);
    for i in 0..4 {
        assert!((val(im[i]) - 12.0).abs() < 1e-5);
    }
}

#[test]
fn inverse_rest_shape_round_trip() {
    let (pos, tets) = two_tets();
    let sys = System::new(&pos, &tets);
    for (e, ids) in tets.iter().enumerate() {
        let el = sys.elems[e];
        assert!(el.active);
        let p = edge_matrix_of(&pos, *ids);
        let prod = el.inv_rest_pose.mul(&p);
        let cols = [prod.c0, prod.c1, prod.c2];
        for (j, c) in cols.iter().enumerate() {
            let entries = [val(c.x), val(c.y), val(c.z)];
            for i in 0..3 {
                let want = if i == j { 1.0 } else { 0.0 };
                assert!((entries[i] - want).abs() < 1e-6);
            }
        }
    }
}

#[test]
fn total_mass_matches_volume_times_density() {
    let (pos, tets) = two_tets();
    let density = fx(2.5);
    let m = lumped_masses(&pos, &tets, density);
    let total: f64 = m.iter().map(|x| val(*x)).sum();
    let mut vol = 0.0;
    for ids in &tets {
        vol += val(volume_of(&edge_matrix_of(&pos, *ids)));
    }
    assert!((total - vol * 2.5).abs() < 1e-6, "total {} volume {}", total, vol);
    assert_eq!(m[5], Fixed::zero());
}

#[test]
fn degenerate_element_is_inactive_and_massless() {
    let pos = vec![v(0.0, 0.0, 0.0), v(1.0, 0.0, 0.0), v(0.0, 1.0, 0.0), v(1.0, 1.0, 0.0)];
    let tets = vec![[0, 1, 2, 3]];
    let sys = System::new(&pos, &tets);
    assert!(!sys.elems[0].active);
    assert_eq!(sys.elems[0].inv_rest_pose, Mat3::zero());
    for i in 0..4 {
        assert_eq!(sys.inv_mass[i], Fixed::zero());
    }
}

#[test]
fn unconnected_vertex_has_zero_inverse_mass() {
    let (pos, tets) = two_tets();
    let sys = System::new(&pos, &tets);
    assert_eq!(sys.inv_mass[5], Fixed::zero());
    for i in 0..5 {
        assert!(sys.inv_mass[i].raw > 0);
    }
}

#[test]
fn one_pass_at_rest_changes_nothing() {
    let pos = regular_tet(0.5, 3.0);
    let mut sys = System::new(&pos, &vec![[0, 1, 2, 3]]);
    zero_gravity(&mut sys);
    sys.par.num_substeps = 1;
    sys.simulate();
    for i in 0..4 {
        assert!(dist(sys.pos[i], pos[i]) < 1e-9);
    }
}

#[test]
fn reset_restores_rest_configuration() {
    let (pos, tets) = two_tets();
    let mut sys = System::new(&pos, &tets);
    let im0 = sys.inv_mass.clone();
    for _ in 0..7 {
        sys.simulate();
    }
    assert!(dist(sys.pos[0], pos[0]) > 1e-6);
    sys.reset();
    assert_eq!(sys.pos, pos);
    assert_eq!(sys.prev_pos, pos);
    for i in 0..pos.len() {
        assert_eq!(sys.vel[i], Vec3::zero());
    }
    assert_eq!(sys.inv_mass, im0);
    let snapshot = (sys.pos.clone(), sys.vel.clone(), sys.inv_mass.clone());
    sys.reset();
    assert_eq!((sys.pos.clone(), sys.vel.clone(), sys.inv_mass.clone()), snapshot);
}

#[test]
fn reset_without_simulation() {
    let pos = regular_tet(0.5, 2.0);
    let mut sys = System::new(&pos, &vec![[0, 1, 2, 3]]);
    sys.reset();
    assert_eq!(sys.pos, pos);
    assert_eq!(sys.prev_pos, pos);
}

#[test]
fn grab_pulls_particle_to_target() {
    let pos = regular_tet(0.5, 3.0);
    let mut sys = System::new(&pos, &vec![[0, 1, 2, 3]]);
    sys.init_grab(v(0.6, 3.4, 0.6));
    assert_eq!(sys.grab.map(|g| g.id), Some(0));
    let q = v(0.7, 3.6, 0.6);
    sys.move_grab(q);
    assert_eq!(sys.grab, Some(Grab { id: 0, target: q }));
    for _ in 0..20 {
        sys.simulate();
        assert!(dist(sys.pos[0], q) < 1e-2, "off by {}", dist(sys.pos[0], q));
    }
    sys.release_grab();
    assert_eq!(sys.grab, None);
}

#[test]
fn massless_grabbed_particle_sits_at_target() {
    let (pos, tets) = two_tets();
    let mut sys = System::new(&pos, &tets);
    sys.init_grab(v(2.9, 3.1, 3.0));
    assert_eq!(sys.grab.map(|g| g.id), Some(5));
    let q = v(2.0, 4.0, 1.0);
    sys.move_grab(q);
    sys.simulate();
    assert_eq!(sys.pos[5], q);
}

#[test]
fn move_and_release_without_grab_do_nothing() {
    let pos = regular_tet(0.5, 3.0);
    let mut sys = System::new(&pos, &vec![[0, 1, 2, 3]]);
    sys.move_grab(v(1.0, 1.0, 1.0));
    assert_eq!(sys.grab, None);
    sys.release_grab();
    assert_eq!(sys.grab, None);
}

#[test]
fn grab_on_empty_mesh_stays_unset() {
    let mut sys = System::new(&Vec::new(), &Vec::new());
    sys.init_grab(v(0.0, 0.0, 0.0));
    assert_eq!(sys.grab, None);
    sys.simulate();
    assert!(sys.pos.is_empty());
}

#[test]
fn closest_particle_first_on_ties() {
    let pos = vec![v(1.0, 0.0, 0.0), v(-1.0, 0.0, 0.0), v(0.0, 5.0, 0.0)];
    let sys = System::new(&pos, &Vec::new());
    assert_eq!(sys.find_closest(v(0.0, 0.0, 0.0)), Some(0));
    assert_eq!(sys.find_closest(v(-0.5, 0.0, 0.0)), Some(1));
    assert_eq!(sys.find_closest(v(0.0, 4.0, 0.0)), Some(2));
}

#[test]
fn heights_stay_in_bounds_horizontal_unclamped() {
    let pos = vec![
        v(7.0, 0.5, 0.0),
        v(8.0, 0.5, 0.0),
        v(7.0, 1.5, 0.0),
        v(7.0, 0.5, -9.0),
    ];
    let mut sys = System::new(&pos, &vec![[0, 1, 2, 3]]);
    for _ in 0..100 {
        sys.simulate();
        for p in &sys.pos {
            assert!(p.y.raw >= sys.par.world_bounds.0.y.raw);
            assert!(p.y.raw <= sys.par.world_bounds.1.y.raw);
        }
    }
    // x and z beyond the box are left as they are
    assert!(val(sys.pos[1].x) > 5.0);
    assert!(val(sys.pos[3].z) < -5.0);
}

#[test]
fn ceiling_clamps_heights() {
    let pos = regular_tet(0.5, 3.0);
    let mut sys = System::new(&pos, &vec![[0, 1, 2, 3]]);
    sys.par.gravity = v(0.0, 100.0, 0.0);
    sys.par.world_bounds.1 = v(5.0, 4.0, 5.0);
    for _ in 0..100 {
        sys.simulate();
    }
    let top = sys.pos.iter().map(|p| p.y.raw).max().unwrap();
    assert_eq!(top, fx(4.0).raw);
}

#[test]
fn regular_tet_without_gravity_stays_at_rest() {
    let pos = regular_tet(0.5, 3.0);
    let mut sys = System::new(&pos, &vec![[0, 1, 2, 3]]);
    zero_gravity(&mut sys);
    for _ in 0..20 {
        sys.simulate();
    }
    for i in 0..4 {
        assert!(dist(sys.pos[i], pos[i]) < 1e-6, "drift {}", dist(sys.pos[i], pos[i]));
    }
}

#[test]
fn falling_mesh_lands_on_floor() {
    let (pos, tets) = two_tets();
    let mut sys = System::new(&pos, &tets);
    for _ in 0..300 {
        sys.simulate();
        for vel in &sys.vel {
            let speed = (val(vel.x).powi(2) + val(vel.y).powi(2) + val(vel.z).powi(2)).sqrt();
            assert!(speed < 100.0, "speed {}", speed);
        }
    }
    let lowest = sys.pos.iter().map(|p| p.y.raw).min().unwrap();
    assert_eq!(lowest, 0);
}

#[test]
fn deformed_element_relaxes_toward_rest_volume() {
    let pos = regular_tet(0.5, 3.0);
    let mut sys = System::new(&pos, &vec![[0, 1, 2, 3]]);
    zero_gravity(&mut sys);
    let rest_vol = val(volume_of(&edge_matrix_of(&pos, [0, 1, 2, 3])));
    sys.pos[0] = v(0.9, 3.9, 0.9);
    let squashed = val(volume_of(&edge_matrix_of(&sys.pos, [0, 1, 2, 3])));
    for _ in 0..50 {
        sys.simulate();
    }
    let now = val(volume_of(&edge_matrix_of(&sys.pos, [0, 1, 2, 3])));
    assert!((now - rest_vol).abs() < (squashed - rest_vol).abs());
}

#[test]
fn edge_list_has_six_pairs_per_tet() {
    let tets = vec![[0, 1, 2, 3], [1, 2, 3, 4]];
    let e = edge_indexes(&tets);
    assert_eq!(
        e,
        vec![0, 1, 0, 2, 0, 3, 1, 2, 1, 3, 2, 3, 1, 2, 1, 3, 1, 4, 2, 3, 2, 4, 3, 4]
    );
    assert!(edge_indexes(&Vec::new()).is_empty());
}

#[test]
fn constraints_vanish_at_rest() {
    let (pos, tets) = two_tets();
    let sys = System::new(&pos, &tets);
    for e in 0..tets.len() {
        let f = sys.deformation_gradient(e);
        let c_shape = val(f.c0.norm_squared()) + val(f.c1.norm_squared()) + val(f.c2.norm_squared()) - 3.0;
        let c_vol = val(f.determinant()) - 1.0;
        assert!(c_shape.abs() < 1e-6, "shape {}", c_shape);
        assert!(c_vol.abs() < 1e-6, "volume {}", c_vol);
    }
}

#[test]
fn stretched_element_deformation_gradient() {
    let pos = vec![v(0.0, 1.0, 0.0), v(1.0, 1.0, 0.0), v(0.0, 2.0, 0.0), v(0.0, 1.0, 1.0)];
    let mut sys = System::new(&pos, &vec![[0, 1, 2, 3]]);
    sys.pos[1] = v(2.0, 1.0, 0.0);
    let f = sys.deformation_gradient(0);
    assert_eq!(f.c0, v(2.0, 0.0, 0.0));
    assert_eq!(f.determinant(), fx(2.0));
}
