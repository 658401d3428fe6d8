//! Three-component vectors and 3×3 matrices over [`Fixed`].
use vstd::prelude::*;
use crate::fixed::{Fixed, fx_add, fx_sub, fx_neg, fx_mul, fx_div, fx_one, fx_zero};

verus! {

#[derive(Clone, Copy, Debug, PartialEq, Eq, Structural)]
pub struct Vec3 {
    pub x: Fixed,
    pub y: Fixed,
    pub z: Fixed,
}

/// A 3×3 matrix stored by columns.
#[derive(Clone, Copy, Debug, PartialEq, Eq, Structural)]
pub struct Mat3 {
    pub c0: Vec3,
    pub c1: Vec3,
    pub c2: Vec3,
}

pub open spec fn v_new(x: Fixed, y: Fixed, z: Fixed) -> Vec3 {
    Vec3 { x, y, z }
}

pub open spec fn v_zero() -> Vec3 {
    Vec3 { x: fx_zero(), y: fx_zero(), z: fx_zero() }
}

pub open spec fn v_add(a: Vec3, b: Vec3) -> Vec3 {
    Vec3 { x: fx_add(a.x, b.x), y: fx_add(a.y, b.y), z: fx_add(a.z, b.z) }
}

pub open spec fn v_sub(a: Vec3, b: Vec3) -> Vec3 {
    Vec3 { x: fx_sub(a.x, b.x), y: fx_sub(a.y, b.y), z: fx_sub(a.z, b.z) }
}

pub open spec fn v_neg(a: Vec3) -> Vec3 {
    Vec3 { x: fx_neg(a.x), y: fx_neg(a.y), z: fx_neg(a.z) }
}

pub open spec fn v_scale(a: Vec3, s: Fixed) -> Vec3 {
    Vec3 { x: fx_mul(a.x, s), y: fx_mul(a.y, s), z: fx_mul(a.z, s) }
}

pub open spec fn v_div(a: Vec3, s: Fixed) -> Vec3 {
    Vec3 { x: fx_div(a.x, s), y: fx_div(a.y, s), z: fx_div(a.z, s) }
}

pub open spec fn v_dot(a: Vec3, b: Vec3) -> Fixed {
    fx_add(fx_add(fx_mul(a.x, b.x), fx_mul(a.y, b.y)), fx_mul(a.z, b.z))
}

pub open spec fn v_norm2(a: Vec3) -> Fixed {
    v_dot(a, a)
}

pub open spec fn v_cross(a: Vec3, b: Vec3) -> Vec3 {
    Vec3 {
        x: fx_sub(fx_mul(a.y, b.z), fx_mul(a.z, b.y)),
        y: fx_sub(fx_mul(a.z, b.x), fx_mul(a.x, b.z)),
        z: fx_sub(fx_mul(a.x, b.y), fx_mul(a.y, b.x)),
    }
}

pub open spec fn m_cols(c0: Vec3, c1: Vec3, c2: Vec3) -> Mat3 {
    Mat3 { c0, c1, c2 }
}

pub open spec fn m_rows(r0: Vec3, r1: Vec3, r2: Vec3) -> Mat3 {
    Mat3 {
        c0: Vec3 { x: r0.x, y: r1.x, z: r2.x },
        c1: Vec3 { x: r0.y, y: r1.y, z: r2.y },
        c2: Vec3 { x: r0.z, y: r1.z, z: r2.z },
    }
}

pub open spec fn m_identity() -> Mat3 {
    Mat3 {
        c0: Vec3 { x: fx_one(), y: fx_zero(), z: fx_zero() },
        c1: Vec3 { x: fx_zero(), y: fx_one(), z: fx_zero() },
        c2: Vec3 { x: fx_zero(), y: fx_zero(), z: fx_one() },
    }
}

pub open spec fn m_zero() -> Mat3 {
    Mat3 { c0: v_zero(), c1: v_zero(), c2: v_zero() }
}

/// Row `k` (0, 1 or 2) of `m`.
pub open spec fn m_row(m: Mat3, k: int) -> Vec3 {
    if k == 0 {
        Vec3 { x: m.c0.x, y: m.c1.x, z: m.c2.x }
    } else if k == 1 {
        Vec3 { x: m.c0.y, y: m.c1.y, z: m.c2.y }
    } else {
        Vec3 { x: m.c0.z, y: m.c1.z, z: m.c2.z }
    }
}

/// `m · v`, as the columns of `m` weighted by the components of `v`.
pub open spec fn m_vec(m: Mat3, v: Vec3) -> Vec3 {
    v_add(v_add(v_scale(m.c0, v.x), v_scale(m.c1, v.y)), v_scale(m.c2, v.z))
}

pub open spec fn m_mul(a: Mat3, b: Mat3) -> Mat3 {
    Mat3 { c0: m_vec(a, b.c0), c1: m_vec(a, b.c1), c2: m_vec(a, b.c2) }
}

/// The determinant, as the triple product of the columns.
pub open spec fn m_det(m: Mat3) -> Fixed {
    v_dot(m.c0, v_cross(m.c1, m.c2))
}

/// The inverse by the adjugate: row `k` is the cross product of the other two
/// columns, in cyclic order, divided by the determinant.
pub open spec fn m_inv(m: Mat3) -> Mat3 {
    let d = m_det(m);
    m_rows(
        v_div(v_cross(m.c1, m.c2), d),
        v_div(v_cross(m.c2, m.c0), d),
        v_div(v_cross(m.c0, m.c1), d),
    )
}

impl Vec3 {
    pub fn new(x: Fixed, y: Fixed, z: Fixed) -> (r: Vec3)
        ensures
            r == v_new(x, y, z),
    {
        Vec3 { x, y, z }
    }

    pub fn zero() -> (r: Vec3)
        ensures
            r == v_zero(),
    {
        Vec3 { x: Fixed::zero(), y: Fixed::zero(), z: Fixed::zero() }
    }

    pub fn plus(self, b: Vec3) -> (r: Vec3)
        ensures
            r == v_add(self, b),
    {
        Vec3 { x: self.x.plus(b.x), y: self.y.plus(b.y), z: self.z.plus(b.z) }
    }

    pub fn minus(self, b: Vec3) -> (r: Vec3)
        ensures
            r == v_sub(self, b),
    {
        Vec3 { x: self.x.minus(b.x), y: self.y.minus(b.y), z: self.z.minus(b.z) }
    }

    pub fn negated(self) -> (r: Vec3)
        ensures
            r == v_neg(self),
    {
        Vec3 { x: self.x.negated(), y: self.y.negated(), z: self.z.negated() }
    }

    pub fn scale(self, s: Fixed) -> (r: Vec3)
        ensures
            r == v_scale(self, s),
    {
        Vec3 { x: self.x.times(s), y: self.y.times(s), z: self.z.times(s) }
    }

    pub fn divide(self, s: Fixed) -> (r: Vec3)
        requires
            s.raw != 0,
        ensures
            r == v_div(self, s),
    {
        Vec3 { x: self.x.quotient(s), y: self.y.quotient(s), z: self.z.quotient(s) }
    }

    pub fn dot(self, b: Vec3) -> (r: Fixed)
        ensures
            r == v_dot(self, b),
    {
        self.x.times(b.x).plus(self.y.times(b.y)).plus(self.z.times(b.z))
    }

    pub fn norm_squared(self) -> (r: Fixed)
        ensures
            r == v_norm2(self),
    {
        self.dot(self)
    }

    pub fn cross(self, b: Vec3) -> (r: Vec3)
        ensures
            r == v_cross(self, b),
    {
        Vec3 {
            x: self.y.times(b.z).minus(self.z.times(b.y)),
            y: self.z.times(b.x).minus(self.x.times(b.z)),
            z: self.x.times(b.y).minus(self.y.times(b.x)),
        }
    }
}

impl Mat3 {
    pub fn from_columns(c0: Vec3, c1: Vec3, c2: Vec3) -> (r: Mat3)
        ensures
            r == m_cols(c0, c1, c2),
    {
        Mat3 { c0, c1, c2 }
    }

    pub fn from_rows(r0: Vec3, r1: Vec3, r2: Vec3) -> (r: Mat3)
        ensures
            r == m_rows(r0, r1, r2),
    {
        Mat3 {
            c0: Vec3 { x: r0.x, y: r1.x, z: r2.x },
            c1: Vec3 { x: r0.y, y: r1.y, z: r2.y },
            c2: Vec3 { x: r0.z, y: r1.z, z: r2.z },
        }
    }

    pub fn zero() -> (r: Mat3)
        ensures
            r == m_zero(),
    {
        Mat3 { c0: Vec3::zero(), c1: Vec3::zero(), c2: Vec3::zero() }
    }

    pub fn row(&self, k: usize) -> (r: Vec3)
        requires
            k < 3,
        ensures
            r == m_row(*self, k as int),
    {
        if k == 0 {
            Vec3 { x: self.c0.x, y: self.c1.x, z: self.c2.x }
        } else if k == 1 {
            Vec3 { x: self.c0.y, y: self.c1.y, z: self.c2.y }
        } else {
            Vec3 { x: self.c0.z, y: self.c1.z, z: self.c2.z }
        }
    }

    pub fn mul_vec(&self, v: Vec3) -> (r: Vec3)
        ensures
            r == m_vec(*self, v),
    {
        self.c0.scale(v.x).plus(self.c1.scale(v.y)).plus(self.c2.scale(v.z))
    }

    pub fn mul(&self, b: &Mat3) -> (r: Mat3)
        ensures
            r == m_mul(*self, *b),
    {
        Mat3 { c0: self.mul_vec(b.c0), c1: self.mul_vec(b.c1), c2: self.mul_vec(b.c2) }
    }

    pub fn determinant(&self) -> (r: Fixed)
        ensures
            r == m_det(*self),
    {
        self.c0.dot(self.c1.cross(self.c2))
    }

    /// The inverse; the determinant must not be zero.
    pub fn inverse(&self) -> (r: Mat3)
        requires
            m_det(*self).raw != 0,
        ensures
            r == m_inv(*self),
    {
        let d = self.determinant();
        Mat3::from_rows(
            self.c1.cross(self.c2).divide(d),
            self.c2.cross(self.c0).divide(d),
            self.c0.cross(self.c1).divide(d),
        )
    }
}

} // verus!
