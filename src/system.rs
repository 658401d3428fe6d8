//! The deformable-body system: particle state, elements, parameters, grab and
//! reset. The per-substep integration lives in `solver`.
use vstd::prelude::*;
use crate::fixed::{Fixed, fx_div, fx_int, fx_mul, tdiv};
use crate::linalg::{Vec3, v_new, v_norm2, v_sub, v_zero};
use crate::rest::{
    Element, inverse_mass_of, inverse_mass_spec, inverse_masses, lumped_masses, masses_upto,
    rest_elements, rest_elements_spec, tets_in_range, vertex_share, tet_volume, edge_matrix,
};

verus! {

/// Run-time configuration of the solver.
#[derive(Clone, Copy, Debug)]
pub struct SystemParameters {
    /// Length of one `simulate` call.
    pub time_step: Fixed,
    /// Substeps per `simulate` call.
    pub num_substeps: usize,
    /// Lower and upper corner of the world box; only the vertical axis is clamped.
    pub world_bounds: (Vec3, Vec3),
    pub dev_compliance: Fixed,
    pub vol_compliance: Fixed,
    pub density: Fixed,
    pub gravity: Vec3,
}

impl SystemParameters {
    /// Parameters the solver can run with: each substep has a positive
    /// length and the compliances are not negative.
    pub open spec fn valid(&self) -> bool {
        &&& self.num_substeps == 0 || self.num_substeps <= self.time_step.raw
        &&& self.dev_compliance.raw >= 0
        &&& self.vol_compliance.raw >= 0
    }

    pub open spec fn default_spec() -> SystemParameters {
        SystemParameters {
            time_step: fx_div(fx_int(1), fx_int(600)),
            num_substeps: 50,
            world_bounds: (
                v_new(fx_int(-5), fx_int(0), fx_int(-5)),
                v_new(fx_int(5), fx_int(10), fx_int(5)),
            ),
            dev_compliance: fx_div(fx_int(1), fx_int(1000)),
            vol_compliance: fx_div(fx_int(1), fx_int(1000)),
            density: fx_int(1),
            gravity: v_new(fx_int(0), fx_int(-100), fx_int(0)),
        }
    }
}

impl Default for SystemParameters {
    fn default() -> (r: SystemParameters)
        ensures
            r == SystemParameters::default_spec(),
            r.valid(),
            r.density.raw >= 0,
    {
        let r = SystemParameters {
            time_step: Fixed::ratio(1, 600),
            num_substeps: 50,
            world_bounds: (
                Vec3::new(Fixed::from_int(-5), Fixed::from_int(0), Fixed::from_int(-5)),
                Vec3::new(Fixed::from_int(5), Fixed::from_int(10), Fixed::from_int(5)),
            ),
            dev_compliance: Fixed::ratio(1, 1000),
            vol_compliance: Fixed::ratio(1, 1000),
            density: Fixed::from_int(1),
            gravity: Vec3::new(Fixed::from_int(0), Fixed::from_int(-100), Fixed::from_int(0)),
        };
        assert(tdiv(4294967296int * 4294967296int, 600int * 4294967296int) == 7158278);
        assert(tdiv(4294967296int * 4294967296int, 1000int * 4294967296int) == 4294967);
        r
    }
}

/// An active grab: particle `id` is pulled to `target`.
#[derive(Clone, Copy, Debug, PartialEq, Eq, Structural)]
pub struct Grab {
    pub id: usize,
    pub target: Vec3,
}

/// Positions, previous positions and velocities of all particles.
pub struct Motion {
    pub pos: Seq<Vec3>,
    pub prev: Seq<Vec3>,
    pub vel: Seq<Vec3>,
}

/// The configuration that construction and reset start from.
pub open spec fn rest_motion(rest: Seq<Vec3>) -> Motion {
    Motion { pos: rest, prev: rest, vel: Seq::new(rest.len(), |i: int| v_zero()) }
}

pub open spec fn grab_dist(pos: Seq<Vec3>, p: Vec3, i: int) -> int {
    v_norm2(v_sub(pos[i], p)).raw as int
}

/// `id` is the first particle at the least squared distance from `p`.
pub open spec fn is_closest(pos: Seq<Vec3>, p: Vec3, id: int) -> bool {
    &&& 0 <= id < pos.len()
    &&& forall|j: int| 0 <= j < pos.len() ==> grab_dist(pos, p, id) <= #[trigger] grab_dist(pos, p, j)
    &&& forall|j: int| 0 <= j < id ==> grab_dist(pos, p, id) < #[trigger] grab_dist(pos, p, j)
}

/// A tetrahedral mesh of particles advanced by XPBD with a neo-Hookean material.
pub struct System {
    /// Rest positions, kept for reset.
    pub orig_pos: Vec<Vec3>,
    pub par: SystemParameters,
    pub pos: Vec<Vec3>,
    pub prev_pos: Vec<Vec3>,
    pub vel: Vec<Vec3>,
    pub inv_mass: Vec<Fixed>,
    pub tet_ids: Vec<[usize; 4]>,
    pub elems: Vec<Element>,
    pub grab: Option<Grab>,
}

impl System {
    pub open spec fn motion(&self) -> Motion {
        Motion { pos: self.pos@, prev: self.prev_pos@, vel: self.vel@ }
    }

    /// Array sizes agree, ids are in range, the elements are those of the rest
    /// geometry, inverse masses are not negative and a grab names a particle.
    pub open spec fn wf(&self) -> bool {
        let n = self.orig_pos.len();
        &&& self.pos.len() == n
        &&& self.prev_pos.len() == n
        &&& self.vel.len() == n
        &&& self.inv_mass.len() == n
        &&& tets_in_range(self.tet_ids@, n as int)
        &&& self.elems@ == rest_elements_spec(self.orig_pos@, self.tet_ids@)
        &&& forall|i: int| 0 <= i < n ==> (#[trigger] self.inv_mass@[i]).raw >= 0
        &&& self.grab matches Some(g) ==> g.id < n
    }

    /// A system at rest on the given mesh, with default parameters.
    pub fn new(vertices: &Vec<Vec3>, tet_ids: &Vec<[usize; 4]>) -> (r: System)
        requires
            tets_in_range(tet_ids@, vertices.len() as int),
        ensures
            r.wf(),
            r.par == SystemParameters::default_spec(),
            r.orig_pos@ == vertices@,
            r.tet_ids@ == tet_ids@,
            r.motion() == rest_motion(vertices@),
            r.elems@ == rest_elements_spec(vertices@, tet_ids@),
            r.inv_mass@ == inverse_mass_spec(vertices@, tet_ids@, r.par.density),
            r.grab.is_none(),
    {
        let par = SystemParameters::default();
        let vel = zero_vectors(vertices.len());
        let mut sys = System {
            orig_pos: vertices.clone(),
            par,
            pos: vertices.clone(),
            prev_pos: vertices.clone(),
            vel,
            inv_mass: Vec::new(),
            tet_ids: copy_tets(tet_ids),
            elems: Vec::new(),
            grab: None,
        };
        assert(sys.orig_pos@ == vertices@);
        assert(sys.tet_ids@ == tet_ids@);
        sys.init_physics();
        assert(sys.motion() == rest_motion(vertices@));
        sys
    }

    /// Recomputes elements and inverse masses from the rest geometry.
    fn init_physics(&mut self)
        requires
            tets_in_range(old(self).tet_ids@, old(self).orig_pos.len() as int),
            old(self).par.density.raw >= 0,
        ensures
            final(self).elems@ == rest_elements_spec(old(self).orig_pos@, old(self).tet_ids@),
            final(self).inv_mass@ == inverse_mass_spec(
                old(self).orig_pos@,
                old(self).tet_ids@,
                old(self).par.density,
            ),
            forall|i: int|
                0 <= i < final(self).inv_mass.len() ==> (#[trigger] final(self).inv_mass@[i]).raw
                    >= 0,
            final(self).inv_mass.len() == old(self).orig_pos.len(),
            final(self).orig_pos == old(self).orig_pos,
            final(self).tet_ids == old(self).tet_ids,
            final(self).par == old(self).par,
            final(self).pos == old(self).pos,
            final(self).prev_pos == old(self).prev_pos,
            final(self).vel == old(self).vel,
            final(self).grab == old(self).grab,
    {
        let masses = lumped_masses(&self.orig_pos, &self.tet_ids, self.par.density);
        proof {
            lemma_masses_nonneg(self.orig_pos@, self.tet_ids@, self.par.density, self.tet_ids@.len());
        }
        self.inv_mass = inverse_masses(&masses);
        self.elems = rest_elements(&self.orig_pos, &self.tet_ids);
        assert forall|i: int| 0 <= i < self.inv_mass.len() implies (
        #[trigger] self.inv_mass@[i]).raw >= 0 by {
            lemma_inverse_mass_nonneg(masses@[i]);
        }
    }

    /// Back to the rest configuration: positions and previous positions are the
    /// rest positions, velocities are zero, and the rest state is recomputed
    /// with the current density. Parameters and grab are kept.
    pub fn reset(&mut self)
        requires
            old(self).wf(),
            old(self).par.density.raw >= 0,
        ensures
            final(self).wf(),
            final(self).motion() == rest_motion(old(self).orig_pos@),
            final(self).inv_mass@ == inverse_mass_spec(
                old(self).orig_pos@,
                old(self).tet_ids@,
                old(self).par.density,
            ),
            final(self).elems@ == old(self).elems@,
            final(self).orig_pos@ == old(self).orig_pos@,
            final(self).tet_ids@ == old(self).tet_ids@,
            final(self).par == old(self).par,
            final(self).grab == old(self).grab,
    {
        self.pos = self.orig_pos.clone();
        self.prev_pos = self.orig_pos.clone();
        self.vel = zero_vectors(self.orig_pos.len());
        self.init_physics();
        assert(self.motion() == rest_motion(old(self).orig_pos@));
    }

    /// The first particle at the least squared distance from `p`, if any.
    pub fn find_closest(&self, p: Vec3) -> (r: Option<usize>)
        ensures
            self.pos.len() == 0 <==> r.is_none(),
            r matches Some(id) ==> is_closest(self.pos@, p, id as int),
    {
        if self.pos.len() == 0 {
            return None;
        }
        let mut min_id: usize = 0;
        let mut min_dist = self.pos[0].minus(p).norm_squared();
        let mut i: usize = 1;
        while i < self.pos.len()
            invariant
                1 <= i <= self.pos.len(),
                min_id < i,
                min_dist.raw == grab_dist(self.pos@, p, min_id as int),
                forall|j: int| 0 <= j < i ==> grab_dist(self.pos@, p, min_id as int) <= #[trigger] grab_dist(self.pos@, p, j),
                forall|j: int| 0 <= j < min_id ==> grab_dist(self.pos@, p, min_id as int) < #[trigger] grab_dist(self.pos@, p, j),
            decreases self.pos.len() - i,
        {
            let d = self.pos[i].minus(p).norm_squared();
            if d.raw < min_dist.raw {
                min_dist = d;
                min_id = i;
            }
            i = i + 1;
        }
        Some(min_id)
    }

    /// Grabs the particle closest to `p`, with `p` as its target; with no
    /// particles nothing is grabbed.
    pub fn init_grab(&mut self, p: Vec3)
        requires
            old(self).wf(),
        ensures
            final(self).wf(),
            old(self).pos.len() == 0 ==> final(self).grab.is_none(),
            old(self).pos.len() > 0 ==> (final(self).grab matches Some(g) && g.target == p
                && is_closest(old(self).pos@, p, g.id as int)),
            final(self).motion() == old(self).motion(),
            final(self).orig_pos == old(self).orig_pos,
            final(self).tet_ids == old(self).tet_ids,
            final(self).elems == old(self).elems,
            final(self).inv_mass == old(self).inv_mass,
            final(self).par == old(self).par,
    {
        match self.find_closest(p) {
            Some(id) => {
                self.grab = Some(Grab { id, target: p });
            },
            None => {
                self.grab = None;
            },
        }
    }

    /// Moves the target of an active grab to `p`; without a grab, nothing changes.
    pub fn move_grab(&mut self, p: Vec3)
        requires
            old(self).wf(),
        ensures
            final(self).wf(),
            final(self).grab == (match old(self).grab {
                Some(g) => Some(Grab { id: g.id, target: p }),
                None => None,
            }),
            final(self).motion() == old(self).motion(),
            final(self).orig_pos == old(self).orig_pos,
            final(self).tet_ids == old(self).tet_ids,
            final(self).elems == old(self).elems,
            final(self).inv_mass == old(self).inv_mass,
            final(self).par == old(self).par,
    {
        match self.grab {
            Some(g) => {
                self.grab = Some(Grab { id: g.id, target: p });
            },
            None => {},
        }
    }

    /// Ends any grab.
    pub fn release_grab(&mut self)
        requires
            old(self).wf(),
        ensures
            final(self).wf(),
            final(self).grab.is_none(),
            final(self).motion() == old(self).motion(),
            final(self).orig_pos == old(self).orig_pos,
            final(self).tet_ids == old(self).tet_ids,
            final(self).elems == old(self).elems,
            final(self).inv_mass == old(self).inv_mass,
            final(self).par == old(self).par,
    {
        self.grab = None;
    }
}

/// An element-by-element copy of `tets`.
fn copy_tets(tets: &Vec<[usize; 4]>) -> (r: Vec<[usize; 4]>)
    ensures
        r@ == tets@,
{
    let mut r: Vec<[usize; 4]> = Vec::new();
    let mut i: usize = 0;
    while i < tets.len()
        invariant
            i <= tets.len(),
            r@ == tets@.take(i as int),
        decreases tets.len() - i,
    {
        r.push(tets[i]);
        i = i + 1;
        assert(r@ =~= tets@.take(i as int));
    }
    assert(tets@.take(i as int) =~= tets@);
    r
}

/// `n` zero vectors.
pub fn zero_vectors(n: usize) -> (r: Vec<Vec3>)
    ensures
        r@ == Seq::new(n as nat, |i: int| v_zero()),
{
    let mut r: Vec<Vec3> = Vec::new();
    let mut i: usize = 0;
    while i < n
        invariant
            i <= n,
            r@ == Seq::new(i as nat, |j: int| v_zero()),
        decreases n - i,
    {
        r.push(Vec3::zero());
        i = i + 1;
        assert(r@ =~= Seq::new(i as nat, |j: int| v_zero()));
    }
    r
}

pub proof fn lemma_share_nonneg(pos: Seq<Vec3>, ids: [usize; 4], density: Fixed)
    requires
        density.raw >= 0,
    ensures
        vertex_share(pos, ids, density).raw >= 0,
{
    let v = tet_volume(edge_matrix(pos, ids));
    let q = fx_div(v, fx_int(4));
    assert(tdiv(v.raw * 4294967296int, 4int * 4294967296int) >= 0) by (nonlinear_arith)
        requires v.raw >= 0;
    assert(q.raw >= 0);
    assert(q.raw * density.raw >= 0) by (nonlinear_arith)
        requires q.raw >= 0, density.raw >= 0;
    assert(fx_mul(q, density).raw >= 0);
}

/// With a non-negative density every accumulated mass is non-negative.
pub proof fn lemma_masses_nonneg(pos: Seq<Vec3>, tets: Seq<[usize; 4]>, density: Fixed, k: nat)
    requires
        density.raw >= 0,
        k <= tets.len(),
        tets_in_range(tets, pos.len() as int),
    ensures
        masses_upto(pos, tets, density, k).len() == pos.len(),
        forall|i: int|
            0 <= i < pos.len() ==> (#[trigger] masses_upto(pos, tets, density, k)[i]).raw >= 0,
    decreases k,
{
    if k > 0 {
        lemma_masses_nonneg(pos, tets, density, (k - 1) as nat);
        lemma_share_nonneg(pos, tets[k - 1], density);
        assert(tets[k - 1][0] < pos.len());
        assert(tets[k - 1][1] < pos.len());
        assert(tets[k - 1][2] < pos.len());
        assert(tets[k - 1][3] < pos.len());
    }
}

pub proof fn lemma_inverse_mass_nonneg(m: Fixed)
    requires
        m.raw >= 0,
    ensures
        inverse_mass_of(m).raw >= 0,
{
    if m.raw != 0 {
        assert(tdiv(4294967296int * 4294967296int, m.raw as int) >= 0) by (nonlinear_arith)
            requires m.raw > 0;
    }
}

} // verus!
