//! Mesh topology helpers.
use vstd::prelude::*;

verus! {

/// The six edges of a tetrahedron as twelve vertex ids, pairwise.
pub open spec fn tet_edges(t: [usize; 4]) -> Seq<usize> {
    seq![t[0], t[1], t[0], t[2], t[0], t[3], t[1], t[2], t[1], t[3], t[2], t[3]]
}

/// The edges of the first `k` tetrahedra, in order.
pub open spec fn edges_upto(tets: Seq<[usize; 4]>, k: nat) -> Seq<usize>
    decreases k,
{
    if k == 0 {
        Seq::empty()
    } else {
        edges_upto(tets, (k - 1) as nat) + tet_edges(tets[k - 1])
    }
}

/// The edge list of a tetrahedral mesh, for drawing: six vertex pairs per
/// tetrahedron, shared edges repeated.
pub fn edge_indexes(tets: &Vec<[usize; 4]>) -> (r: Vec<usize>)
    ensures
        r@ == edges_upto(tets@, tets.len() as nat),
        r.len() == 12 * tets.len(),
{
    let mut r: Vec<usize> = Vec::new();
    let mut e: usize = 0;
    while e < tets.len()
        invariant
            e <= tets.len(),
            r@ == edges_upto(tets@, e as nat),
            r.len() == 12 * e,
        decreases tets.len() - e,
    {
        let t = tets[e];
        r.push(t[0]);
        r.push(t[1]);
        r.push(t[0]);
        r.push(t[2]);
        r.push(t[0]);
        r.push(t[3]);
        r.push(t[1]);
        r.push(t[2]);
        r.push(t[1]);
        r.push(t[3]);
        r.push(t[2]);
        r.push(t[3]);
        e = e + 1;
        assert(r@ =~= edges_upto(tets@, e as nat));
    }
    r
}

} // verus!
