//! Properties of the solver, proved over the specifications that the
//! executable functions meet.
use vstd::prelude::*;
use crate::fixed::{Fixed, ONE_RAW, fx_add, fx_div, fx_int, fx_mul, fx_neg, fx_one, fx_zero};
use crate::linalg::{Vec3, m_identity, v_norm2, v_zero, m_det, v_scale, v_sub, v_neg};
use crate::rest::{
    Element, add_share, edge_matrix, lumped_mass_spec, masses_upto, rest_element, tet_volume,
    tets_in_range, vertex_share,
};
use crate::solver::{
    clamp_y, correct, deformation, moved, shape_grad, volume_grad, weight, predicted, shape_c, simulated, solve_elem_spec,
    solve_shape_spec, solve_upto, solve_volume_spec, substep, substep_len, substeps, volume_c,
};
use crate::system::{Grab, Motion, System, SystemParameters, rest_motion, lemma_share_nonneg};

verus! {

/// Substeps keep the number of particles.
pub proof fn lemma_substeps_len(
    m: Motion,
    inv_mass: Seq<Fixed>,
    elems: Seq<Element>,
    par: SystemParameters,
    grab: Option<Grab>,
    dt: Fixed,
    k: nat,
)
    ensures
        substeps(m, inv_mass, elems, par, grab, dt, k).pos.len() == m.pos.len(),
    decreases k,
{
    if k > 0 {
        lemma_substeps_len(m, inv_mass, elems, par, grab, dt, (k - 1) as nat);
    }
}

/// World boundary: after a `simulate` call with at least one substep and
/// ordered vertical bounds, every particle's height lies within the bounds.
pub proof fn simulate_keeps_heights_in_bounds(s: &System)
    requires
        s.wf(),
        s.par.num_substeps >= 1,
        s.par.world_bounds.0.y.raw <= s.par.world_bounds.1.y.raw,
    ensures
        simulated(s).pos.len() == s.pos.len(),
        forall|i: int|
            0 <= i < s.pos.len() ==> s.par.world_bounds.0.y.raw <= (#[trigger] simulated(s).pos[i]).y.raw
                <= s.par.world_bounds.1.y.raw,
{
    let k = s.par.num_substeps as nat;
    lemma_substeps_len(s.motion(), s.inv_mass@, s.elems@, s.par, s.grab, substep_len(s.par), (k - 1) as nat);
}

/// The world clamp acts on heights only: x and z are kept as they are.
pub proof fn clamp_keeps_horizontal(p: Vec3, bounds: (Vec3, Vec3))
    ensures
        clamp_y(p, bounds).x == p.x,
        clamp_y(p, bounds).z == p.z,
{
}

/// At rest, with `F` the identity, both constraints are zero.
pub proof fn rest_constraints_vanish()
    ensures
        shape_c(m_identity()).raw == 0,
        volume_c(m_identity()).raw == 0,
{
    let i = m_identity();
    assert(4294967296int * 4294967296int / 4294967296int == 4294967296int);
    assert(fx_mul(fx_one(), fx_one()).raw == 4294967296);
    assert(fx_mul(fx_zero(), fx_zero()).raw == 0);
    assert(fx_mul(fx_one(), fx_zero()).raw == 0);
    assert(fx_mul(fx_zero(), fx_one()).raw == 0);
    assert(v_norm2(i.c0).raw == 4294967296);
    assert(v_norm2(i.c1).raw == 4294967296);
    assert(v_norm2(i.c2).raw == 4294967296);
    assert(m_det(i).raw == 4294967296);
    assert(fx_int(3).raw == 3 * 4294967296);
}

/// At rest, an element solve moves no particle.
pub proof fn rest_element_is_fixed(pos: Seq<Vec3>, inv_mass: Seq<Fixed>, e: Element, par: SystemParameters, dt: Fixed)
    requires
        deformation(pos, e) == m_identity(),
    ensures
        solve_elem_spec(pos, inv_mass, e, par, dt) == pos,
{
    reveal(solve_elem_spec);
    rest_constraints_vanish();
    assert(solve_shape_spec(pos, inv_mass, e, par.dev_compliance, dt) == pos);
    assert(solve_volume_spec(pos, inv_mass, e, par.vol_compliance, dt) == pos);
}

/// At rest, with `F` the identity for every active element, a whole solve
/// pass leaves every position unchanged.
pub proof fn rest_pass_is_fixed(pos: Seq<Vec3>, inv_mass: Seq<Fixed>, elems: Seq<Element>, par: SystemParameters, dt: Fixed, k: nat)
    requires
        k <= elems.len(),
        forall|e: int| 0 <= e < elems.len() && (#[trigger] elems[e]).active ==> deformation(pos, elems[e]) == m_identity(),
    ensures
        solve_upto(pos, inv_mass, elems, par, dt, k) == pos,
    decreases k,
{
    if k > 0 {
        rest_pass_is_fixed(pos, inv_mass, elems, par, dt, (k - 1) as nat);
        reveal(solve_elem_spec);
        if elems[k - 1].active {
            rest_element_is_fixed(pos, inv_mass, elems[k - 1], par, dt);
        }
    }
}

/// Grab: in every substep, once the prediction is done, the grabbed particle
/// stands exactly at the target, whatever gravity and its velocity did.
pub proof fn grab_override_reaches_target(m: Motion, par: SystemParameters, g: Grab, dt: Fixed)
    requires
        g.id < m.pos.len(),
    ensures
        predicted(m, par, Some(g), dt)[g.id as int] == g.target,
{
}

/// A move of one particle leaves a particle without inverse mass where it is.
pub proof fn lemma_moved_keeps_massless(pos: Seq<Vec3>, inv_mass: Seq<Fixed>, id: usize, g: Vec3, dl: Fixed, j: int)
    requires
        0 <= j < pos.len(),
        j < inv_mass.len(),
        inv_mass[j].raw == 0,
        id < pos.len(),
    ensures
        moved(pos, inv_mass, id, g, dl).len() == pos.len(),
        moved(pos, inv_mass, id, g, dl)[j] == pos[j],
{
    if id as int == j {
        let h = v_scale(g, dl);
        assert(h.x.raw * 0 == 0);
        assert(h.y.raw * 0 == 0);
        assert(h.z.raw * 0 == 0);
        let z = v_scale(h, inv_mass[j]);
        assert(z.x.raw == 0 && z.y.raw == 0 && z.z.raw == 0);
    }
}

/// A particle without inverse mass is not moved by a correction.
pub proof fn lemma_correct_keeps_massless(
    pos: Seq<Vec3>,
    inv_mass: Seq<Fixed>,
    ids: [usize; 4],
    c: Fixed,
    g1: Vec3,
    g2: Vec3,
    g3: Vec3,
    compliance: Fixed,
    dt: Fixed,
    j: int,
)
    requires
        0 <= j < pos.len(),
        j < inv_mass.len(),
        inv_mass[j].raw == 0,
        ids[0] < pos.len(),
        ids[1] < pos.len(),
        ids[2] < pos.len(),
        ids[3] < pos.len(),
    ensures
        correct(pos, inv_mass, ids, c, g1, g2, g3, compliance, dt).len() == pos.len(),
        correct(pos, inv_mass, ids, c, g1, g2, g3, compliance, dt)[j] == pos[j],
{
    let g0 = v_sub(v_sub(v_neg(g1), g2), g3);
    let w = weight(inv_mass, ids, g0, g1, g2, g3);
    if !(c.raw == 0 || w.raw == 0) {
        let alpha = fx_div(fx_div(compliance, dt), dt);
        let dl = fx_div(fx_neg(c), fx_add(w, alpha));
        let pa = moved(pos, inv_mass, ids[0], g0, dl);
        lemma_moved_keeps_massless(pos, inv_mass, ids[0], g0, dl, j);
        let pb = moved(pa, inv_mass, ids[1], g1, dl);
        lemma_moved_keeps_massless(pa, inv_mass, ids[1], g1, dl, j);
        let pc = moved(pb, inv_mass, ids[2], g2, dl);
        lemma_moved_keeps_massless(pb, inv_mass, ids[2], g2, dl, j);
        lemma_moved_keeps_massless(pc, inv_mass, ids[3], g3, dl, j);
    }
}

/// A particle without inverse mass is not moved by a solve pass.
pub proof fn lemma_solve_keeps_massless(pos: Seq<Vec3>, inv_mass: Seq<Fixed>, elems: Seq<Element>, par: SystemParameters, dt: Fixed, k: nat, j: int)
    requires
        k <= elems.len(),
        0 <= j < pos.len(),
        j < inv_mass.len(),
        inv_mass[j].raw == 0,
        forall|e: int, q: int| 0 <= e < elems.len() && 0 <= q < 4 ==> (#[trigger] elems[e].ids[q]) < pos.len(),
    ensures
        solve_upto(pos, inv_mass, elems, par, dt, k).len() == pos.len(),
        solve_upto(pos, inv_mass, elems, par, dt, k)[j] == pos[j],
    decreases k,
{
    if k > 0 {
        lemma_solve_keeps_massless(pos, inv_mass, elems, par, dt, (k - 1) as nat, j);
        reveal(solve_elem_spec);
        let p = solve_upto(pos, inv_mass, elems, par, dt, (k - 1) as nat);
        let e = elems[k - 1];
        assert(e.ids[0] < pos.len() && e.ids[1] < pos.len() && e.ids[2] < pos.len() && e.ids[3] < pos.len()) by {
            assert(elems[k - 1].ids[0] < pos.len());
            assert(elems[k - 1].ids[1] < pos.len());
            assert(elems[k - 1].ids[2] < pos.len());
            assert(elems[k - 1].ids[3] < pos.len());
        }
        if e.active {
            let f = deformation(p, e);
            let ir = e.inv_rest_pose;
            lemma_correct_keeps_massless(p, inv_mass, e.ids, shape_c(f), shape_grad(f, ir, 0), shape_grad(f, ir, 1), shape_grad(f, ir, 2), par.dev_compliance, dt, j);
            let pb = solve_shape_spec(p, inv_mass, e, par.dev_compliance, dt);
            let f2 = deformation(pb, e);
            lemma_correct_keeps_massless(pb, inv_mass, e.ids, volume_c(f2), volume_grad(f2, ir, 0), volume_grad(f2, ir, 1), volume_grad(f2, ir, 2), par.vol_compliance, dt, j);
        }
    }
}

/// Grab: a grabbed particle without inverse mass, held at a target within the
/// vertical bounds, is exactly at the target after a `simulate` call with at
/// least one substep.
pub proof fn pinned_grab_holds(s: &System, g: Grab)
    requires
        s.wf(),
        s.grab == Some(g),
        s.inv_mass@[g.id as int].raw == 0,
        s.par.num_substeps >= 1,
        s.par.world_bounds.0.y.raw <= g.target.y.raw <= s.par.world_bounds.1.y.raw,
    ensures
        simulated(s).pos[g.id as int] == g.target,
{
    let k = s.par.num_substeps as nat;
    let dt = substep_len(s.par);
    let prior = substeps(s.motion(), s.inv_mass@, s.elems@, s.par, s.grab, dt, (k - 1) as nat);
    lemma_substeps_len(s.motion(), s.inv_mass@, s.elems@, s.par, s.grab, dt, (k - 1) as nat);
    let pre = predicted(prior, s.par, s.grab, dt);
    grab_override_reaches_target(prior, s.par, g, dt);
    assert forall|e: int, q: int| 0 <= e < s.elems@.len() && 0 <= q < 4 implies (#[trigger] s.elems@[e].ids[q]) < pre.len() by {
        assert(s.tet_ids@[e][q] < s.orig_pos.len());
    }
    lemma_solve_keeps_massless(pre, s.inv_mass@, s.elems@, s.par, dt, s.elems@.len(), g.id as int);
}

/// Reset: any number of `simulate` calls keeps the particle count, and the
/// configuration that `reset` restores is the rest positions, as previous
/// positions too, with zero velocity.
pub proof fn reset_after_simulation(s: &System, calls: nat)
    requires
        s.wf(),
    ensures
        substeps(s.motion(), s.inv_mass@, s.elems@, s.par, s.grab, substep_len(s.par), calls * (s.par.num_substeps as nat)).pos.len()
            == s.orig_pos.len(),
        rest_motion(s.orig_pos@).pos == s.orig_pos@,
        rest_motion(s.orig_pos@).prev == s.orig_pos@,
        rest_motion(s.orig_pos@).vel.len() == s.orig_pos.len(),
        forall|i: int| 0 <= i < s.orig_pos.len() ==> #[trigger] rest_motion(s.orig_pos@).vel[i] == v_zero(),
{
    lemma_substeps_len(s.motion(), s.inv_mass@, s.elems@, s.par, s.grab, substep_len(s.par), calls * (s.par.num_substeps as nat));
}

/// The sum of the raw values of `s`.
pub open spec fn seq_sum(s: Seq<Fixed>) -> int
    decreases s.len(),
{
    if s.len() == 0 {
        0
    } else {
        seq_sum(s.drop_last()) + s.last().raw
    }
}

/// The sum of the per-vertex shares of the active elements among the first `k`.
pub open spec fn share_total(pos: Seq<Vec3>, tets: Seq<[usize; 4]>, density: Fixed, k: nat) -> int
    decreases k,
{
    if k == 0 {
        0
    } else {
        share_total(pos, tets, density, (k - 1) as nat) + if rest_element(pos, tets[k - 1]).active {
            vertex_share(pos, tets[k - 1], density).raw as int
        } else {
            0
        }
    }
}

pub proof fn lemma_sum_update(s: Seq<Fixed>, i: int, v: Fixed)
    requires
        0 <= i < s.len(),
    ensures
        seq_sum(s.update(i, v)) == seq_sum(s) - s[i].raw + v.raw,
    decreases s.len(),
{
    let t = s.update(i, v);
    if i == s.len() - 1 {
        assert(t.drop_last() =~= s.drop_last());
    } else {
        lemma_sum_update(s.drop_last(), i, v);
        assert(t.drop_last() =~= s.drop_last().update(i, v));
    }
}

pub proof fn lemma_entry_le_sum(s: Seq<Fixed>, i: int)
    requires
        0 <= i < s.len(),
        forall|j: int| 0 <= j < s.len() ==> (#[trigger] s[j]).raw >= 0,
    ensures
        s[i].raw <= seq_sum(s),
    decreases s.len(),
{
    lemma_sum_nonneg(s.drop_last());
    if i < s.len() - 1 {
        lemma_entry_le_sum(s.drop_last(), i);
    }
}

pub proof fn lemma_sum_nonneg(s: Seq<Fixed>)
    requires
        forall|j: int| 0 <= j < s.len() ==> (#[trigger] s[j]).raw >= 0,
    ensures
        seq_sum(s) >= 0,
    decreases s.len(),
{
    if s.len() > 0 {
        lemma_sum_nonneg(s.drop_last());
    }
}

pub proof fn lemma_sum_zeros(n: nat)
    ensures
        seq_sum(Seq::new(n, |i: int| fx_zero())) == 0,
    decreases n,
{
    if n > 0 {
        lemma_sum_zeros((n - 1) as nat);
        assert(Seq::new(n, |i: int| fx_zero()).drop_last() =~= Seq::new((n - 1) as nat, |i: int| fx_zero()));
    }
}

/// Adding a non-negative share to one entry, without reaching the top of the
/// range, adds it to the sum.
pub proof fn lemma_add_to_entry(m: Seq<Fixed>, id: int, s: Fixed)
    requires
        0 <= id < m.len(),
        s.raw >= 0,
        forall|j: int| 0 <= j < m.len() ==> (#[trigger] m[j]).raw >= 0,
        seq_sum(m) + s.raw <= i64::MAX,
    ensures
        seq_sum(m.update(id, fx_add(m[id], s))) == seq_sum(m) + s.raw,
        forall|j: int| 0 <= j < m.len() ==> (#[trigger] m.update(id, fx_add(m[id], s))[j]).raw >= 0,
{
    lemma_entry_le_sum(m, id);
    lemma_sum_update(m, id, fx_add(m[id], s));
}

pub proof fn lemma_mass_total(pos: Seq<Vec3>, tets: Seq<[usize; 4]>, density: Fixed, k: nat)
    requires
        density.raw >= 0,
        k <= tets.len(),
        tets_in_range(tets, pos.len() as int),
        4 * share_total(pos, tets, density, k) <= i64::MAX,
    ensures
        masses_upto(pos, tets, density, k).len() == pos.len(),
        forall|j: int| 0 <= j < pos.len() ==> (#[trigger] masses_upto(pos, tets, density, k)[j]).raw >= 0,
        seq_sum(masses_upto(pos, tets, density, k)) == 4 * share_total(pos, tets, density, k),
        share_total(pos, tets, density, k) >= 0,
    decreases k,
{
    if k == 0 {
        lemma_sum_zeros(pos.len());
    } else {
        let ids = tets[k - 1];
        let s = vertex_share(pos, ids, density);
        lemma_share_nonneg(pos, ids, density);
        lemma_mass_total(pos, tets, density, (k - 1) as nat);
        if rest_element(pos, ids).active {
            assert(ids[0] < pos.len() && ids[1] < pos.len() && ids[2] < pos.len() && ids[3] < pos.len()) by {
                assert(tets[k - 1][0] < pos.len());
                assert(tets[k - 1][1] < pos.len());
                assert(tets[k - 1][2] < pos.len());
                assert(tets[k - 1][3] < pos.len());
            }
            let m0 = masses_upto(pos, tets, density, (k - 1) as nat);
            let m1 = m0.update(ids[0] as int, fx_add(m0[ids[0] as int], s));
            let m2 = m1.update(ids[1] as int, fx_add(m1[ids[1] as int], s));
            let m3 = m2.update(ids[2] as int, fx_add(m2[ids[2] as int], s));
            lemma_add_to_entry(m0, ids[0] as int, s);
            lemma_add_to_entry(m1, ids[1] as int, s);
            lemma_add_to_entry(m2, ids[2] as int, s);
            lemma_add_to_entry(m3, ids[3] as int, s);
            assert(masses_upto(pos, tets, density, k) == add_share(m0, ids, s));
        }
    }
}

/// Total lumped mass: with a non-negative density, and where the total fits
/// in the range of the number type, the particle masses add up to four times
/// the sum of the per-vertex shares of the active elements (a share being a
/// quarter of the element's rest volume times the density).
pub proof fn total_lumped_mass(pos: Seq<Vec3>, tets: Seq<[usize; 4]>, density: Fixed)
    requires
        density.raw >= 0,
        tets_in_range(tets, pos.len() as int),
        4 * share_total(pos, tets, density, tets.len()) <= i64::MAX,
    ensures
        seq_sum(lumped_mass_spec(pos, tets, density)) == 4 * share_total(pos, tets, density, tets.len()),
{
    lemma_mass_total(pos, tets, density, tets.len());
}

/// The sum, over the active elements among the first `k`, of rest volume
/// times density, in raw units squared.
pub open spec fn volume_density_total(pos: Seq<Vec3>, tets: Seq<[usize; 4]>, density: Fixed, k: nat) -> int
    decreases k,
{
    if k == 0 {
        0
    } else {
        volume_density_total(pos, tets, density, (k - 1) as nat) + if rest_element(pos, tets[k - 1]).active {
            tet_volume(edge_matrix(pos, tets[k - 1])).raw * density.raw
        } else {
            0
        }
    }
}

/// Four shares of an element fall short of its volume times density by less
/// than three densities plus four units of the last place.
pub proof fn lemma_share_bounds(pos: Seq<Vec3>, ids: [usize; 4], density: Fixed)
    requires
        density.raw >= 0,
        tet_volume(edge_matrix(pos, ids)).raw * density.raw <= i64::MAX,
    ensures
        ({
            let vd = tet_volume(edge_matrix(pos, ids)).raw * density.raw;
            let s = vertex_share(pos, ids, density).raw;
            &&& vd - 3 * density.raw - 4 * ONE_RAW < 4 * ONE_RAW * s
            &&& 4 * ONE_RAW * s <= vd
        }),
{
    let v = tet_volume(edge_matrix(pos, ids)).raw as int;
    let d = density.raw as int;
    let one = ONE_RAW as int;
    assert(v >= 0);
    assert(v * one >= 0) by (nonlinear_arith)
        requires
            v >= 0,
            one > 0,
    ;
    let q = (v * one) / (4 * one);
    assert(q == v / 4) by (nonlinear_arith)
        requires
            q == (v * one) / (4 * one),
            one > 0,
            v >= 0,
    {
        assert(v * one == (v / 4) * (4 * one) + (v % 4) * one) by (nonlinear_arith)
            requires
                one > 0,
        {
            assert(v == (v / 4) * 4 + v % 4);
        }
        assert(0 <= (v % 4) * one < 4 * one) by (nonlinear_arith)
            requires
                0 <= v % 4 < 4,
                one > 0,
        ;
        vstd::arithmetic::div_mod::lemma_fundamental_div_mod_converse(v * one, 4 * one, v / 4, (v % 4) * one);
    }
    assert(v - 3 <= 4 * q <= v);
    assert(fx_div(tet_volume(edge_matrix(pos, ids)), fx_int(4)).raw == q);
    assert(0 <= q * d <= v * d) by (nonlinear_arith)
        requires
            0 <= q,
            4 * q <= v,
            d >= 0,
    ;
    let s = (q * d) / one;
    assert(vertex_share(pos, ids, density).raw == s);
    assert(one * s <= q * d < one * s + one) by (nonlinear_arith)
        requires
            s == (q * d) / one,
            one > 0,
            q * d >= 0,
    ;
    assert((v - 3) * d <= 4 * q * d <= v * d) by (nonlinear_arith)
        requires
            v - 3 <= 4 * q <= v,
            d >= 0,
    ;
    assert(4 * one * s <= v * d) by (nonlinear_arith)
        requires
            one * s <= q * d,
            4 * q * d <= v * d,
    ;
    assert(v * d - 3 * d - 4 * one < 4 * one * s) by (nonlinear_arith)
        requires
            q * d < one * s + one,
            (v - 3) * d <= 4 * q * d,
    ;
}

pub proof fn lemma_share_total_bounds(pos: Seq<Vec3>, tets: Seq<[usize; 4]>, density: Fixed, k: nat)
    requires
        density.raw >= 0,
        k <= tets.len(),
        forall|e: int| 0 <= e < tets.len() ==> tet_volume(edge_matrix(pos, #[trigger] tets[e])).raw * density.raw <= i64::MAX,
    ensures
        volume_density_total(pos, tets, density, k) - k * (3 * density.raw + 4 * ONE_RAW)
            <= 4 * ONE_RAW * share_total(pos, tets, density, k)
            <= volume_density_total(pos, tets, density, k),
    decreases k,
{
    if k > 0 {
        lemma_share_total_bounds(pos, tets, density, (k - 1) as nat);
        let ids = tets[k - 1];
        assert(tet_volume(edge_matrix(pos, tets[k - 1])).raw * density.raw <= i64::MAX);
        lemma_share_bounds(pos, ids, density);
        assert(k * (3 * density.raw + 4 * ONE_RAW) == (k - 1) * (3 * density.raw + 4 * ONE_RAW) + (3 * density.raw + 4 * ONE_RAW)) by (nonlinear_arith);
        assert((3 * density.raw + 4 * ONE_RAW) >= 0);
    }
}

/// Total lumped mass against volume: with a non-negative density, where the
/// total mass and each element's volume times density fit in the range of
/// the number type, the total particle mass (times the unit) lies between the
/// sum of active volumes times density less `3·density + 4` units of the last
/// place per element, and that sum itself.
pub proof fn lumped_mass_matches_volume(pos: Seq<Vec3>, tets: Seq<[usize; 4]>, density: Fixed)
    requires
        density.raw >= 0,
        tets_in_range(tets, pos.len() as int),
        4 * share_total(pos, tets, density, tets.len()) <= i64::MAX,
        forall|e: int| 0 <= e < tets.len() ==> tet_volume(edge_matrix(pos, #[trigger] tets[e])).raw * density.raw <= i64::MAX,
    ensures
        volume_density_total(pos, tets, density, tets.len()) - tets.len() * (3 * density.raw + 4 * ONE_RAW)
            <= ONE_RAW * seq_sum(lumped_mass_spec(pos, tets, density))
            <= volume_density_total(pos, tets, density, tets.len()),
{
    total_lumped_mass(pos, tets, density);
    lemma_share_total_bounds(pos, tets, density, tets.len());
}

pub open spec fn icross(a: (int, int, int), b: (int, int, int)) -> (int, int, int) {
    (a.1 * b.2 - a.2 * b.1, a.2 * b.0 - a.0 * b.2, a.0 * b.1 - a.1 * b.0)
}

pub open spec fn idot(a: (int, int, int), b: (int, int, int)) -> int {
    a.0 * b.0 + a.1 * b.1 + a.2 * b.2
}

/// The triple product is invariant under a cyclic shift of its factors.
pub proof fn lemma_cyclic_triple(a0: int, a1: int, a2: int, b0: int, b1: int, b2: int, e0: int, e1: int, e2: int)
    ensures
        a0 * (b1 * e2 - b2 * e1) + a1 * (b2 * e0 - b0 * e2) + a2 * (b0 * e1 - b1 * e0)
            == (e1 * a2 - e2 * a1) * b0 + (e2 * a0 - e0 * a2) * b1 + (e0 * a1 - e1 * a0) * b2,
        a0 * (b1 * e2 - b2 * e1) + a1 * (b2 * e0 - b0 * e2) + a2 * (b0 * e1 - b1 * e0)
            == (a1 * b2 - a2 * b1) * e0 + (a2 * b0 - a0 * b2) * e1 + (a0 * b1 - a1 * b0) * e2,
{
    assert(a0 * (b1 * e2 - b2 * e1) == a0 * b1 * e2 - a0 * b2 * e1) by (nonlinear_arith);
    assert(a1 * (b2 * e0 - b0 * e2) == a1 * b2 * e0 - a1 * b0 * e2) by (nonlinear_arith);
    assert(a2 * (b0 * e1 - b1 * e0) == a2 * b0 * e1 - a2 * b1 * e0) by (nonlinear_arith);
    assert((e1 * a2 - e2 * a1) * b0 == a2 * b0 * e1 - a1 * b0 * e2) by (nonlinear_arith);
    assert((e2 * a0 - e0 * a2) * b1 == a0 * b1 * e2 - a2 * b1 * e0) by (nonlinear_arith);
    assert((e0 * a1 - e1 * a0) * b2 == a1 * b2 * e0 - a0 * b2 * e1) by (nonlinear_arith);
    assert((a1 * b2 - a2 * b1) * e0 == a1 * b2 * e0 - a2 * b1 * e0) by (nonlinear_arith);
    assert((a2 * b0 - a0 * b2) * e1 == a2 * b0 * e1 - a0 * b2 * e1) by (nonlinear_arith);
    assert((a0 * b1 - a1 * b0) * e2 == a0 * b1 * e2 - a1 * b0 * e2) by (nonlinear_arith);
}

/// Inverse round trip, in exact arithmetic: the rows that the inverse divides
/// by the determinant (the cross products of the columns in cyclic order)
/// times the columns give the determinant on the diagonal and zero elsewhere.
/// So the inverse times the edge matrix is the identity but for the rounding
/// of each operation.
pub proof fn adjugate_round_trip(c0: (int, int, int), c1: (int, int, int), c2: (int, int, int))
    ensures
        ({
            let d = idot(c0, icross(c1, c2));
            let r0 = icross(c1, c2);
            let r1 = icross(c2, c0);
            let r2 = icross(c0, c1);
            &&& idot(r0, c0) == d && idot(r0, c1) == 0 && idot(r0, c2) == 0
            &&& idot(r1, c0) == 0 && idot(r1, c1) == d && idot(r1, c2) == 0
            &&& idot(r2, c0) == 0 && idot(r2, c1) == 0 && idot(r2, c2) == d
        }),
{
    assert(idot(icross(c1, c2), c0) == idot(c0, icross(c1, c2))) by (nonlinear_arith);
    assert(idot(icross(c1, c2), c1) == 0) by (nonlinear_arith);
    assert(idot(icross(c1, c2), c2) == 0) by (nonlinear_arith);
    assert(idot(icross(c2, c0), c0) == 0) by (nonlinear_arith);
    let (a0, a1, a2) = c0;
    let (b0, b1, b2) = c1;
    let (e0, e1, e2) = c2;
    lemma_cyclic_triple(a0, a1, a2, b0, b1, b2, e0, e1, e2);
    assert(idot(icross(c2, c0), c2) == 0) by (nonlinear_arith);
    assert(idot(icross(c0, c1), c0) == 0) by (nonlinear_arith);
    assert(idot(icross(c0, c1), c1) == 0) by (nonlinear_arith);
}

} // verus!
