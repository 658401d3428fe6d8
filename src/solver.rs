//! The XPBD integrator: prediction, grab override, per-element shape and
//! volume constraints, world-boundary clamp and velocity recovery.
//!
//! Each constraint correction is computed afresh in every substep; no Lagrange
//! multiplier is carried from one substep to the next.
use vstd::prelude::*;
use crate::fixed::{
    Fixed, fx_add, fx_sub, fx_neg, fx_mul, fx_div, fx_int, fx_one, lemma_mul_nonneg,
    lemma_square_nonneg, lemma_div_nonneg,
};
use crate::linalg::{
    Mat3, Vec3, m_cols, m_det, m_mul, m_row, m_vec, v_add, v_cross, v_div, v_neg, v_norm2,
    v_scale, v_sub,
};
use crate::rest::{Element, edge_matrix, edge_matrix_of};
use crate::system::{Grab, Motion, System, SystemParameters};

verus! {

/// The length of one substep.
pub open spec fn substep_len(par: SystemParameters) -> Fixed {
    Fixed { raw: (par.time_step.raw as int / par.num_substeps as int) as i64 }
}

/// The factor applied to each predicted displacement, 0.99995.
pub open spec fn damping() -> Fixed {
    fx_div(fx_int(19999), fx_int(20000))
}

pub open spec fn predicted_vel(v: Vec3, gravity: Vec3, dt: Fixed) -> Vec3 {
    v_add(v, v_scale(gravity, dt))
}

pub open spec fn predicted_pos(p: Vec3, v: Vec3, dt: Fixed) -> Vec3 {
    v_add(p, v_scale(v_scale(v, dt), damping()))
}

/// `F = P · R⁻¹`, with `P` the current edge matrix.
pub open spec fn deformation(pos: Seq<Vec3>, e: Element) -> Mat3 {
    m_mul(edge_matrix(pos, e.ids), e.inv_rest_pose)
}

/// Deviatoric constraint `|f0|² + |f1|² + |f2|² − 3`.
pub open spec fn shape_c(f: Mat3) -> Fixed {
    fx_sub(fx_add(fx_add(v_norm2(f.c0), v_norm2(f.c1)), v_norm2(f.c2)), fx_int(3))
}

/// Gradient of the deviatoric constraint for vertex `k + 1`.
pub open spec fn shape_grad(f: Mat3, ir: Mat3, k: int) -> Vec3 {
    v_scale(m_vec(f, m_row(ir, k)), fx_int(2))
}

/// Columns `f1 × f2`, `f2 × f0`, `f0 × f1`: the derivative of `det F`.
pub open spec fn cofactor(f: Mat3) -> Mat3 {
    m_cols(v_cross(f.c1, f.c2), v_cross(f.c2, f.c0), v_cross(f.c0, f.c1))
}

/// Volumetric constraint `det F − 1`.
pub open spec fn volume_c(f: Mat3) -> Fixed {
    fx_sub(m_det(f), fx_one())
}

/// Gradient of the volumetric constraint for vertex `k + 1`.
pub open spec fn volume_grad(f: Mat3, ir: Mat3, k: int) -> Vec3 {
    m_vec(cofactor(f), m_row(ir, k))
}

pub open spec fn weight_term(g: Vec3, w: Fixed) -> Fixed {
    fx_mul(v_norm2(g), w)
}

/// `Σ |gᵢ|² · wᵢ` over the four vertices.
pub open spec fn weight(inv_mass: Seq<Fixed>, ids: [usize; 4], g0: Vec3, g1: Vec3, g2: Vec3, g3: Vec3) -> Fixed {
    fx_add(
        fx_add(
            fx_add(weight_term(g0, inv_mass[ids[0] as int]), weight_term(g1, inv_mass[ids[1] as int])),
            weight_term(g2, inv_mass[ids[2] as int]),
        ),
        weight_term(g3, inv_mass[ids[3] as int]),
    )
}

/// `pos[id] += g · Δλ · w[id]`.
pub open spec fn moved(pos: Seq<Vec3>, inv_mass: Seq<Fixed>, id: usize, g: Vec3, dl: Fixed) -> Seq<Vec3> {
    pos.update(id as int, v_add(pos[id as int], v_scale(v_scale(g, dl), inv_mass[id as int])))
}

/// The XPBD step for one constraint with value `c` and gradients `g1..g3`
/// (the gradient of vertex 0 is minus their sum): nothing when `c` or the
/// weight is zero, else each vertex moves by `gᵢ · Δλ · wᵢ` with
/// `Δλ = −c / (weight + compliance / dt²)`.
pub open spec fn correct(
    pos: Seq<Vec3>,
    inv_mass: Seq<Fixed>,
    ids: [usize; 4],
    c: Fixed,
    g1: Vec3,
    g2: Vec3,
    g3: Vec3,
    compliance: Fixed,
    dt: Fixed,
) -> Seq<Vec3> {
    let g0 = v_sub(v_sub(v_neg(g1), g2), g3);
    let w = weight(inv_mass, ids, g0, g1, g2, g3);
    if c.raw == 0 || w.raw == 0 {
        pos
    } else {
        let alpha = fx_div(fx_div(compliance, dt), dt);
        let dl = fx_div(fx_neg(c), fx_add(w, alpha));
        let pa = moved(pos, inv_mass, ids[0], g0, dl);
        let pb = moved(pa, inv_mass, ids[1], g1, dl);
        let pc = moved(pb, inv_mass, ids[2], g2, dl);
        moved(pc, inv_mass, ids[3], g3, dl)
    }
}

pub open spec fn solve_shape_spec(pos: Seq<Vec3>, inv_mass: Seq<Fixed>, e: Element, compliance: Fixed, dt: Fixed) -> Seq<Vec3> {
    let f = deformation(pos, e);
    let ir = e.inv_rest_pose;
    correct(pos, inv_mass, e.ids, shape_c(f), shape_grad(f, ir, 0), shape_grad(f, ir, 1), shape_grad(f, ir, 2), compliance, dt)
}

pub open spec fn solve_volume_spec(pos: Seq<Vec3>, inv_mass: Seq<Fixed>, e: Element, compliance: Fixed, dt: Fixed) -> Seq<Vec3> {
    let f = deformation(pos, e);
    let ir = e.inv_rest_pose;
    correct(pos, inv_mass, e.ids, volume_c(f), volume_grad(f, ir, 0), volume_grad(f, ir, 1), volume_grad(f, ir, 2), compliance, dt)
}

/// Shape then volume for an active element; an inactive one is skipped.
#[verifier::opaque]
pub open spec fn solve_elem_spec(pos: Seq<Vec3>, inv_mass: Seq<Fixed>, e: Element, par: SystemParameters, dt: Fixed) -> Seq<Vec3> {
    if e.active {
        solve_volume_spec(solve_shape_spec(pos, inv_mass, e, par.dev_compliance, dt), inv_mass, e, par.vol_compliance, dt)
    } else {
        pos
    }
}

/// The first `k` elements solved in index order.
pub open spec fn solve_upto(pos: Seq<Vec3>, inv_mass: Seq<Fixed>, elems: Seq<Element>, par: SystemParameters, dt: Fixed, k: nat) -> Seq<Vec3>
    decreases k,
{
    if k == 0 {
        pos
    } else {
        solve_elem_spec(solve_upto(pos, inv_mass, elems, par, dt, (k - 1) as nat), inv_mass, elems[k - 1], par, dt)
    }
}

pub open spec fn fx_max(a: Fixed, b: Fixed) -> Fixed {
    if a.raw >= b.raw { a } else { b }
}

pub open spec fn fx_min(a: Fixed, b: Fixed) -> Fixed {
    if a.raw <= b.raw { a } else { b }
}

/// The vertical coordinate clamped into the bounds; x and z are left as they are.
pub open spec fn clamp_y(p: Vec3, bounds: (Vec3, Vec3)) -> Vec3 {
    Vec3 { x: p.x, y: fx_min(fx_max(p.y, bounds.0.y), bounds.1.y), z: p.z }
}

pub open spec fn with_grab(pos: Seq<Vec3>, grab: Option<Grab>) -> Seq<Vec3> {
    match grab {
        Some(g) => pos.update(g.id as int, g.target),
        None => pos,
    }
}

/// Predicted positions after the grab override, before any constraint.
pub open spec fn predicted(m: Motion, par: SystemParameters, grab: Option<Grab>, dt: Fixed) -> Seq<Vec3> {
    let n = m.pos.len();
    let vel = Seq::new(n, |i: int| predicted_vel(m.vel[i], par.gravity, dt));
    with_grab(Seq::new(n, |i: int| predicted_pos(m.pos[i], vel[i], dt)), grab)
}

/// One substep: predict, grab, solve every element, clamp, recover velocities.
pub open spec fn substep(m: Motion, inv_mass: Seq<Fixed>, elems: Seq<Element>, par: SystemParameters, grab: Option<Grab>, dt: Fixed) -> Motion {
    let n = m.pos.len();
    let solved = solve_upto(predicted(m, par, grab, dt), inv_mass, elems, par, dt, elems.len());
    let pos = Seq::new(n, |i: int| clamp_y(solved[i], par.world_bounds));
    Motion { pos, prev: m.pos, vel: Seq::new(n, |i: int| v_div(v_sub(pos[i], m.pos[i]), dt)) }
}

pub open spec fn substeps(m: Motion, inv_mass: Seq<Fixed>, elems: Seq<Element>, par: SystemParameters, grab: Option<Grab>, dt: Fixed, k: nat) -> Motion
    decreases k,
{
    if k == 0 {
        m
    } else {
        substep(substeps(m, inv_mass, elems, par, grab, dt, (k - 1) as nat), inv_mass, elems, par, grab, dt)
    }
}

/// What one `simulate` call does to the motion of `s`.
pub open spec fn simulated(s: &System) -> Motion {
    substeps(s.motion(), s.inv_mass@, s.elems@, s.par, s.grab, substep_len(s.par), s.par.num_substeps as nat)
}

/// Everything but the motion is the same.
pub open spec fn same_setup(a: &System, b: &System) -> bool {
    &&& a.orig_pos == b.orig_pos
    &&& a.par == b.par
    &&& a.inv_mass == b.inv_mass
    &&& a.tet_ids == b.tet_ids
    &&& a.elems == b.elems
    &&& a.grab == b.grab
}

/// The weight is never negative where inverse masses are not.
pub proof fn lemma_weight_nonneg(inv_mass: Seq<Fixed>, ids: [usize; 4], g0: Vec3, g1: Vec3, g2: Vec3, g3: Vec3)
    requires
        forall|i: int| 0 <= i < inv_mass.len() ==> (#[trigger] inv_mass[i]).raw >= 0,
        ids[0] < inv_mass.len(),
        ids[1] < inv_mass.len(),
        ids[2] < inv_mass.len(),
        ids[3] < inv_mass.len(),
    ensures
        weight(inv_mass, ids, g0, g1, g2, g3).raw >= 0,
{
    lemma_norm2_nonneg(g0);
    lemma_norm2_nonneg(g1);
    lemma_norm2_nonneg(g2);
    lemma_norm2_nonneg(g3);
    lemma_mul_nonneg(v_norm2(g0), inv_mass[ids[0] as int]);
    lemma_mul_nonneg(v_norm2(g1), inv_mass[ids[1] as int]);
    lemma_mul_nonneg(v_norm2(g2), inv_mass[ids[2] as int]);
    lemma_mul_nonneg(v_norm2(g3), inv_mass[ids[3] as int]);
}

pub proof fn lemma_norm2_nonneg(v: Vec3)
    ensures
        v_norm2(v).raw >= 0,
{
    lemma_square_nonneg(v.x);
    lemma_square_nonneg(v.y);
    lemma_square_nonneg(v.z);
}

impl System {
    /// The four ids of element `e` index particles.
    proof fn lemma_elem_ids(&self, e: int)
        requires
            self.wf(),
            0 <= e < self.elems.len(),
        ensures
            self.elems@[e].ids == self.tet_ids@[e],
            self.elems@[e].ids[0] < self.pos.len(),
            self.elems@[e].ids[1] < self.pos.len(),
            self.elems@[e].ids[2] < self.pos.len(),
            self.elems@[e].ids[3] < self.pos.len(),
    {
        assert(self.tet_ids@[e][0] < self.orig_pos.len());
        assert(self.tet_ids@[e][1] < self.orig_pos.len());
        assert(self.tet_ids@[e][2] < self.orig_pos.len());
        assert(self.tet_ids@[e][3] < self.orig_pos.len());
    }

    /// `F = P · R⁻¹` of element `e` at the current positions.
    pub fn deformation_gradient(&self, e: usize) -> (r: Mat3)
        requires
            self.wf(),
            e < self.elems.len(),
        ensures
            r == deformation(self.pos@, self.elems@[e as int]),
    {
        proof { self.lemma_elem_ids(e as int); }
        let el = self.elems[e];
        edge_matrix_of(&self.pos, el.ids).mul(&el.inv_rest_pose)
    }

    fn move_particle(&mut self, id: usize, g: Vec3, dl: Fixed)
        requires
            old(self).wf(),
            id < old(self).pos.len(),
        ensures
            final(self).wf(),
            same_setup(final(self), old(self)),
            final(self).pos@ == moved(old(self).pos@, old(self).inv_mass@, id, g, dl),
            final(self).prev_pos == old(self).prev_pos,
            final(self).vel == old(self).vel,
    {
        let p = self.pos[id].plus(g.scale(dl).scale(self.inv_mass[id]));
        self.pos.set(id, p);
    }

    /// Applies [`correct`] to the particles of `ids`.
    fn apply_to_elem(&mut self, ids: [usize; 4], c: Fixed, g1: Vec3, g2: Vec3, g3: Vec3, compliance: Fixed, dt: Fixed)
        requires
            old(self).wf(),
            ids[0] < old(self).pos.len(),
            ids[1] < old(self).pos.len(),
            ids[2] < old(self).pos.len(),
            ids[3] < old(self).pos.len(),
            compliance.raw >= 0,
            dt.raw > 0,
        ensures
            final(self).wf(),
            same_setup(final(self), old(self)),
            final(self).pos@ == correct(old(self).pos@, old(self).inv_mass@, ids, c, g1, g2, g3, compliance, dt),
            final(self).prev_pos == old(self).prev_pos,
            final(self).vel == old(self).vel,
    {
        if c.raw == 0 {
            return;
        }
        let g0 = g1.negated().minus(g2).minus(g3);
        let w = g0.norm_squared().times(self.inv_mass[ids[0]])
            .plus(g1.norm_squared().times(self.inv_mass[ids[1]]))
            .plus(g2.norm_squared().times(self.inv_mass[ids[2]]))
            .plus(g3.norm_squared().times(self.inv_mass[ids[3]]));
        if w.raw == 0 {
            return;
        }
        let alpha = compliance.quotient(dt).quotient(dt);
        proof {
            lemma_weight_nonneg(self.inv_mass@, ids, g0, g1, g2, g3);
            lemma_div_nonneg(compliance, dt);
            lemma_div_nonneg(fx_div(compliance, dt), dt);
        }
        let dl = c.negated().quotient(w.plus(alpha));
        self.move_particle(ids[0], g0, dl);
        self.move_particle(ids[1], g1, dl);
        self.move_particle(ids[2], g2, dl);
        self.move_particle(ids[3], g3, dl);
    }

    fn solve_shape(&mut self, e: usize, dt: Fixed)
        requires
            old(self).wf(),
            old(self).par.valid(),
            e < old(self).elems.len(),
            dt.raw > 0,
        ensures
            final(self).wf(),
            same_setup(final(self), old(self)),
            final(self).pos@ == solve_shape_spec(old(self).pos@, old(self).inv_mass@, old(self).elems@[e as int], old(self).par.dev_compliance, dt),
            final(self).prev_pos == old(self).prev_pos,
            final(self).vel == old(self).vel,
    {
        proof { self.lemma_elem_ids(e as int); }
        let el = self.elems[e];
        let ir = el.inv_rest_pose;
        let f = self.deformation_gradient(e);
        let two = Fixed::from_int(2);
        let g1 = f.mul_vec(ir.row(0)).scale(two);
        let g2 = f.mul_vec(ir.row(1)).scale(two);
        let g3 = f.mul_vec(ir.row(2)).scale(two);
        let c = f.c0.norm_squared().plus(f.c1.norm_squared()).plus(f.c2.norm_squared()).minus(
            Fixed::from_int(3),
        );
        let compliance = self.par.dev_compliance;
        self.apply_to_elem(el.ids, c, g1, g2, g3, compliance, dt);
    }

    fn solve_volume(&mut self, e: usize, dt: Fixed)
        requires
            old(self).wf(),
            old(self).par.valid(),
            e < old(self).elems.len(),
            dt.raw > 0,
        ensures
            final(self).wf(),
            same_setup(final(self), old(self)),
            final(self).pos@ == solve_volume_spec(old(self).pos@, old(self).inv_mass@, old(self).elems@[e as int], old(self).par.vol_compliance, dt),
            final(self).prev_pos == old(self).prev_pos,
            final(self).vel == old(self).vel,
    {
        proof { self.lemma_elem_ids(e as int); }
        let el = self.elems[e];
        let ir = el.inv_rest_pose;
        let f = self.deformation_gradient(e);
        let cof = Mat3::from_columns(f.c1.cross(f.c2), f.c2.cross(f.c0), f.c0.cross(f.c1));
        let g1 = cof.mul_vec(ir.row(0));
        let g2 = cof.mul_vec(ir.row(1));
        let g3 = cof.mul_vec(ir.row(2));
        let c = f.determinant().minus(Fixed::one());
        let compliance = self.par.vol_compliance;
        self.apply_to_elem(el.ids, c, g1, g2, g3, compliance, dt);
    }

    fn solve_elem(&mut self, e: usize, dt: Fixed)
        requires
            old(self).wf(),
            old(self).par.valid(),
            e < old(self).elems.len(),
            dt.raw > 0,
        ensures
            final(self).wf(),
            same_setup(final(self), old(self)),
            final(self).pos@ == solve_elem_spec(old(self).pos@, old(self).inv_mass@, old(self).elems@[e as int], old(self).par, dt),
            final(self).prev_pos == old(self).prev_pos,
            final(self).vel == old(self).vel,
    {
        proof { reveal(solve_elem_spec); }
        if self.elems[e].active {
            self.solve_shape(e, dt);
            self.solve_volume(e, dt);
        }
    }

    fn solve_all(&mut self, dt: Fixed)
        requires
            old(self).wf(),
            old(self).par.valid(),
            dt.raw > 0,
        ensures
            final(self).wf(),
            same_setup(final(self), old(self)),
            final(self).pos@ == solve_upto(old(self).pos@, old(self).inv_mass@, old(self).elems@, old(self).par, dt, old(self).elems.len() as nat),
            final(self).prev_pos == old(self).prev_pos,
            final(self).vel == old(self).vel,
    {
        let mut e: usize = 0;
        while e < self.elems.len()
            invariant
                e <= self.elems.len(),
                self.wf(),
                self.par.valid(),
                dt.raw > 0,
                same_setup(self, old(self)),
                self.pos@ == solve_upto(old(self).pos@, old(self).inv_mass@, old(self).elems@, old(self).par, dt, e as nat),
                self.prev_pos == old(self).prev_pos,
                self.vel == old(self).vel,
            decreases self.elems.len() - e,
        {
            self.solve_elem(e, dt);
            e = e + 1;
        }
    }

    /// `vel += g·dt`, `prev = pos`, `pos += vel·dt·damping`, then the grab override.
    fn predict(&mut self, dt: Fixed)
        requires
            old(self).wf(),
        ensures
            final(self).wf(),
            same_setup(final(self), old(self)),
            final(self).pos@ == predicted(old(self).motion(), old(self).par, old(self).grab, dt),
            final(self).prev_pos@ == old(self).pos@,
            final(self).vel@ == Seq::new(old(self).pos.len() as nat, |i: int| predicted_vel(old(self).vel@[i], old(self).par.gravity, dt)),
    {
        let n = self.pos.len();
        let damp = Fixed::ratio(19999, 20000);
        let g = self.par.gravity;
        let mut i: usize = 0;
        while i < n
            invariant
                i <= n,
                n == self.pos.len(),
                self.wf(),
                same_setup(self, old(self)),
                damp == damping(),
                g == old(self).par.gravity,
                forall|j: int| 0 <= j < i ==> #[trigger] self.vel@[j] == predicted_vel(old(self).vel@[j], g, dt),
                forall|j: int| 0 <= j < i ==> #[trigger] self.prev_pos@[j] == old(self).pos@[j],
                forall|j: int| 0 <= j < i ==> #[trigger] self.pos@[j] == predicted_pos(old(self).pos@[j], self.vel@[j], dt),
                forall|j: int| i <= j < n ==> #[trigger] self.vel@[j] == old(self).vel@[j],
                forall|j: int| i <= j < n ==> #[trigger] self.pos@[j] == old(self).pos@[j],
            decreases n - i,
        {
            let v = self.vel[i].plus(g.scale(dt));
            self.vel.set(i, v);
            let p = self.pos[i];
            self.prev_pos.set(i, p);
            self.pos.set(i, p.plus(v.scale(dt).scale(damp)));
            i = i + 1;
        }
        let ghost vel_new = Seq::new(n as nat, |j: int| predicted_vel(old(self).vel@[j], g, dt));
        assert(self.vel@ =~= vel_new);
        assert(self.prev_pos@ =~= old(self).pos@);
        assert(self.pos@ =~= Seq::new(n as nat, |j: int| predicted_pos(old(self).pos@[j], vel_new[j], dt)));
        match self.grab {
            Some(gr) => {
                self.pos.set(gr.id, gr.target);
            },
            None => {},
        }
    }

    /// Clamps every particle's height into the world bounds.
    fn world_bounds(&mut self)
        requires
            old(self).wf(),
        ensures
            final(self).wf(),
            same_setup(final(self), old(self)),
            final(self).pos@ == Seq::new(old(self).pos.len() as nat, |i: int| clamp_y(old(self).pos@[i], old(self).par.world_bounds)),
            final(self).prev_pos == old(self).prev_pos,
            final(self).vel == old(self).vel,
    {
        let n = self.pos.len();
        let lo = self.par.world_bounds.0.y;
        let hi = self.par.world_bounds.1.y;
        let mut i: usize = 0;
        while i < n
            invariant
                i <= n,
                n == self.pos.len(),
                self.wf(),
                same_setup(self, old(self)),
                lo == old(self).par.world_bounds.0.y,
                hi == old(self).par.world_bounds.1.y,
                self.prev_pos == old(self).prev_pos,
                self.vel == old(self).vel,
                forall|j: int| 0 <= j < i ==> #[trigger] self.pos@[j] == clamp_y(old(self).pos@[j], old(self).par.world_bounds),
                forall|j: int| i <= j < n ==> #[trigger] self.pos@[j] == old(self).pos@[j],
            decreases n - i,
        {
            let p = self.pos[i];
            let mut y = p.y;
            if y.raw < lo.raw {
                y = lo;
            }
            if y.raw > hi.raw {
                y = hi;
            }
            self.pos.set(i, Vec3 { x: p.x, y, z: p.z });
            i = i + 1;
        }
        assert(self.pos@ =~= Seq::new(n as nat, |j: int| clamp_y(old(self).pos@[j], old(self).par.world_bounds)));
    }

    /// `vel = (pos − prev) / dt` for every particle.
    fn update_velocities(&mut self, dt: Fixed)
        requires
            old(self).wf(),
            dt.raw > 0,
        ensures
            final(self).wf(),
            same_setup(final(self), old(self)),
            final(self).pos == old(self).pos,
            final(self).prev_pos == old(self).prev_pos,
            final(self).vel@ == Seq::new(old(self).pos.len() as nat, |i: int| v_div(v_sub(old(self).pos@[i], old(self).prev_pos@[i]), dt)),
    {
        let n = self.pos.len();
        let mut i: usize = 0;
        while i < n
            invariant
                i <= n,
                n == self.pos.len(),
                self.wf(),
                dt.raw > 0,
                same_setup(self, old(self)),
                self.pos == old(self).pos,
                self.prev_pos == old(self).prev_pos,
                forall|j: int| 0 <= j < i ==> #[trigger] self.vel@[j] == v_div(v_sub(old(self).pos@[j], old(self).prev_pos@[j]), dt),
            decreases n - i,
        {
            let v = self.pos[i].minus(self.prev_pos[i]).divide(dt);
            self.vel.set(i, v);
            i = i + 1;
        }
        assert(self.vel@ =~= Seq::new(n as nat, |j: int| v_div(v_sub(old(self).pos@[j], old(self).prev_pos@[j]), dt)));
    }

    fn substep(&mut self, dt: Fixed)
        requires
            old(self).wf(),
            old(self).par.valid(),
            dt.raw > 0,
        ensures
            final(self).wf(),
            same_setup(final(self), old(self)),
            final(self).motion() == substep(old(self).motion(), old(self).inv_mass@, old(self).elems@, old(self).par, old(self).grab, dt),
    {
        self.predict(dt);
        self.solve_all(dt);
        self.world_bounds();
        self.update_velocities(dt);
        assert(self.motion() =~= substep(old(self).motion(), old(self).inv_mass@, old(self).elems@, old(self).par, old(self).grab, dt));
    }

    /// Advances the system by one time step of `num_substeps` substeps.
    pub fn simulate(&mut self)
        requires
            old(self).wf(),
            old(self).par.valid(),
        ensures
            final(self).wf(),
            same_setup(final(self), old(self)),
            final(self).motion() == simulated(old(self)),
    {
        let n = self.par.num_substeps;
        if n == 0 {
            return;
        }
        let dt = Fixed { raw: (self.par.time_step.raw as u64 / n as u64) as i64 };
        assert(dt.raw > 0) by (nonlinear_arith)
            requires
                dt.raw == self.par.time_step.raw as int / n as int,
                n as int <= self.par.time_step.raw as int,
                n > 0,
        ;
        assert(dt == substep_len(self.par));
        let mut k: usize = 0;
        while k < n
            invariant
                k <= n,
                n == old(self).par.num_substeps,
                dt == substep_len(old(self).par),
                dt.raw > 0,
                self.wf(),
                old(self).par.valid(),
                same_setup(self, old(self)),
                self.motion() == substeps(old(self).motion(), old(self).inv_mass@, old(self).elems@, old(self).par, old(self).grab, dt, k as nat),
            decreases n - k,
        {
            self.substep(dt);
            k = k + 1;
        }
    }
}

} // verus!
