//! Rest-state precomputation: per-element inverse rest shape and per-particle
//! lumped inverse mass.
use vstd::prelude::*;
use crate::fixed::{Fixed, fx_add, fx_div, fx_mul, fx_abs, fx_int, fx_one, fx_zero};
use crate::linalg::{Mat3, Vec3, m_cols, m_det, m_inv, m_zero, v_sub};

verus! {

/// One tetrahedron: four particle ids and its cached inverse rest shape.
/// An inactive element has a (near) zero rest volume; it carries no mass and is
/// never solved.
#[derive(Clone, Copy, Debug)]
pub struct Element {
    pub ids: [usize; 4],
    pub inv_rest_pose: Mat3,
    pub active: bool,
}

/// Every id of every tetrahedron indexes a particle.
pub open spec fn tets_in_range(tets: Seq<[usize; 4]>, n: int) -> bool {
    forall|e: int, k: int| 0 <= e < tets.len() && 0 <= k < 4 ==> #[trigger] tets[e][k] < n
}

/// The matrix whose columns are the edges from vertex 0 to vertices 1, 2 and 3.
pub open spec fn edge_matrix(pos: Seq<Vec3>, ids: [usize; 4]) -> Mat3 {
    m_cols(
        v_sub(pos[ids[1] as int], pos[ids[0] as int]),
        v_sub(pos[ids[2] as int], pos[ids[0] as int]),
        v_sub(pos[ids[3] as int], pos[ids[0] as int]),
    )
}

/// `|det(P) / 6|`, the volume of the tetrahedron.
pub open spec fn tet_volume(p: Mat3) -> Fixed {
    fx_abs(fx_div(m_det(p), fx_int(6)))
}

pub open spec fn rest_element(pos: Seq<Vec3>, ids: [usize; 4]) -> Element {
    let p = edge_matrix(pos, ids);
    if tet_volume(p).raw == 0 {
        Element { ids, inv_rest_pose: m_zero(), active: false }
    } else {
        Element { ids, inv_rest_pose: m_inv(p), active: true }
    }
}

/// The mass that an element hands to each of its four particles.
pub open spec fn vertex_share(pos: Seq<Vec3>, ids: [usize; 4], density: Fixed) -> Fixed {
    fx_mul(fx_div(tet_volume(edge_matrix(pos, ids)), fx_int(4)), density)
}

pub open spec fn add_share(m: Seq<Fixed>, ids: [usize; 4], s: Fixed) -> Seq<Fixed> {
    let m1 = m.update(ids[0] as int, fx_add(m[ids[0] as int], s));
    let m2 = m1.update(ids[1] as int, fx_add(m1[ids[1] as int], s));
    let m3 = m2.update(ids[2] as int, fx_add(m2[ids[2] as int], s));
    m3.update(ids[3] as int, fx_add(m3[ids[3] as int], s))
}

/// Accumulated particle masses after the first `k` tetrahedra.
pub open spec fn masses_upto(pos: Seq<Vec3>, tets: Seq<[usize; 4]>, density: Fixed, k: nat) -> Seq<
    Fixed,
>
    decreases k,
{
    if k == 0 {
        Seq::new(pos.len(), |i: int| fx_zero())
    } else {
        let prev = masses_upto(pos, tets, density, (k - 1) as nat);
        let ids = tets[k - 1];
        if rest_element(pos, ids).active {
            add_share(prev, ids, vertex_share(pos, ids, density))
        } else {
            prev
        }
    }
}

pub open spec fn lumped_mass_spec(pos: Seq<Vec3>, tets: Seq<[usize; 4]>, density: Fixed) -> Seq<
    Fixed,
> {
    masses_upto(pos, tets, density, tets.len())
}

pub open spec fn inverse_mass_of(m: Fixed) -> Fixed {
    if m.raw == 0 {
        fx_zero()
    } else {
        fx_div(fx_one(), m)
    }
}

pub open spec fn inverse_mass_spec(pos: Seq<Vec3>, tets: Seq<[usize; 4]>, density: Fixed) -> Seq<
    Fixed,
> {
    let m = lumped_mass_spec(pos, tets, density);
    Seq::new(m.len(), |i: int| inverse_mass_of(m[i]))
}

pub open spec fn rest_elements_spec(pos: Seq<Vec3>, tets: Seq<[usize; 4]>) -> Seq<Element> {
    Seq::new(tets.len(), |e: int| rest_element(pos, tets[e]))
}

/// The edge matrix of `ids` over `pos`.
pub fn edge_matrix_of(pos: &Vec<Vec3>, ids: [usize; 4]) -> (r: Mat3)
    requires
        ids[0] < pos.len(),
        ids[1] < pos.len(),
        ids[2] < pos.len(),
        ids[3] < pos.len(),
    ensures
        r == edge_matrix(pos@, ids),
{
    let origin = pos[ids[0]];
    Mat3::from_columns(pos[ids[1]].minus(origin), pos[ids[2]].minus(origin), pos[ids[3]].minus(origin))
}

pub fn volume_of(p: &Mat3) -> (r: Fixed)
    ensures
        r == tet_volume(*p),
        r.raw >= 0,
{
    p.determinant().quotient(Fixed::from_int(6)).abs()
}

/// The rest state of one tetrahedron: active, with the inverse of its edge
/// matrix, exactly when its volume is not zero.
pub fn rest_element_of(pos: &Vec<Vec3>, ids: [usize; 4]) -> (r: Element)
    requires
        ids[0] < pos.len(),
        ids[1] < pos.len(),
        ids[2] < pos.len(),
        ids[3] < pos.len(),
    ensures
        r == rest_element(pos@, ids),
{
    let p = edge_matrix_of(pos, ids);
    let v = volume_of(&p);
    if v.raw == 0 {
        Element { ids, inv_rest_pose: Mat3::zero(), active: false }
    } else {
        assert(m_det(p).raw != 0) by {
            if m_det(p).raw == 0 {
                assert(fx_div(m_det(p), fx_int(6)).raw == 0);
            }
        }
        Element { ids, inv_rest_pose: p.inverse(), active: true }
    }
}

/// The rest state of every tetrahedron, in order.
pub fn rest_elements(pos: &Vec<Vec3>, tets: &Vec<[usize; 4]>) -> (r: Vec<Element>)
    requires
        tets_in_range(tets@, pos.len() as int),
    ensures
        r@ == rest_elements_spec(pos@, tets@),
{
    let mut r: Vec<Element> = Vec::new();
    let mut e: usize = 0;
    while e < tets.len()
        invariant
            e <= tets.len(),
            tets_in_range(tets@, pos.len() as int),
            r@ == rest_elements_spec(pos@, tets@.take(e as int)),
        decreases tets.len() - e,
    {
        let ids = tets[e];
        assert(ids[0] < pos.len() && ids[1] < pos.len() && ids[2] < pos.len() && ids[3]
            < pos.len()) by {
            assert(tets@[e as int][0] < pos.len());
            assert(tets@[e as int][1] < pos.len());
            assert(tets@[e as int][2] < pos.len());
            assert(tets@[e as int][3] < pos.len());
        }
        r.push(rest_element_of(pos, ids));
        e = e + 1;
        assert(r@ =~= rest_elements_spec(pos@, tets@.take(e as int)));
    }
    assert(tets@.take(e as int) =~= tets@);
    r
}

/// Lumped particle masses: each active tetrahedron adds a quarter of its
/// volume times `density` to each of its four particles, in element order.
pub fn lumped_masses(pos: &Vec<Vec3>, tets: &Vec<[usize; 4]>, density: Fixed) -> (r: Vec<Fixed>)
    requires
        tets_in_range(tets@, pos.len() as int),
    ensures
        r@ == lumped_mass_spec(pos@, tets@, density),
{
    let n = pos.len();
    let mut m: Vec<Fixed> = Vec::new();
    let mut i: usize = 0;
    while i < n
        invariant
            i <= n,
            n == pos.len(),
            m@ == Seq::new(i as nat, |j: int| fx_zero()),
        decreases n - i,
    {
        m.push(Fixed::zero());
        i = i + 1;
        assert(m@ =~= Seq::new(i as nat, |j: int| fx_zero()));
    }
    let mut e: usize = 0;
    while e < tets.len()
        invariant
            e <= tets.len(),
            n == pos.len(),
            tets_in_range(tets@, n as int),
            m@ == masses_upto(pos@, tets@, density, e as nat),
            m@.len() == n,
        decreases tets.len() - e,
    {
        let ids = tets[e];
        assert(ids[0] < n && ids[1] < n && ids[2] < n && ids[3] < n) by {
            assert(tets@[e as int][0] < n);
            assert(tets@[e as int][1] < n);
            assert(tets@[e as int][2] < n);
            assert(tets@[e as int][3] < n);
        }
        let p = edge_matrix_of(pos, ids);
        let v = volume_of(&p);
        if v.raw != 0 {
            let pm = v.quotient(Fixed::from_int(4)).times(density);
            let mut k: usize = 0;
            while k < 4
                invariant
                    k <= 4,
                    m@.len() == n,
                    ids[0] < n && ids[1] < n && ids[2] < n && ids[3] < n,
                    pm == vertex_share(pos@, ids, density),
                    ({
                        let m0 = masses_upto(pos@, tets@, density, e as nat);
                        let m1 = m0.update(ids[0] as int, fx_add(m0[ids[0] as int], pm));
                        let m2 = m1.update(ids[1] as int, fx_add(m1[ids[1] as int], pm));
                        let m3 = m2.update(ids[2] as int, fx_add(m2[ids[2] as int], pm));
                        let m4 = m3.update(ids[3] as int, fx_add(m3[ids[3] as int], pm));
                        &&& k == 0 ==> m@ == m0
                        &&& k == 1 ==> m@ == m1
                        &&& k == 2 ==> m@ == m2
                        &&& k == 3 ==> m@ == m3
                        &&& k == 4 ==> m@ == m4
                    }),
                decreases 4 - k,
            {
                let id = ids[k];
                let cur = m[id];
                m.set(id, cur.plus(pm));
                k = k + 1;
            }
        }
        e = e + 1;
    }
    m
}

/// `1 / m` for each mass, and zero where the mass is zero.
pub fn inverse_masses(masses: &Vec<Fixed>) -> (r: Vec<Fixed>)
    ensures
        r@ == Seq::new(masses@.len(), |i: int| inverse_mass_of(masses@[i])),
{
    let mut r: Vec<Fixed> = Vec::new();
    let mut i: usize = 0;
    while i < masses.len()
        invariant
            i <= masses.len(),
            r@ == Seq::new(i as nat, |j: int| inverse_mass_of(masses@[j])),
        decreases masses.len() - i,
    {
        let m = masses[i];
        let im = if m.raw == 0 {
            Fixed::zero()
        } else {
            Fixed::one().quotient(m)
        };
        r.push(im);
        i = i + 1;
        assert(r@ =~= Seq::new(i as nat, |j: int| inverse_mass_of(masses@[j])));
    }
    r
}

} // verus!
