use xpbd_neohookean::fixed::Fixed;
use xpbd_neohookean::linalg::{Mat3, Vec3};

fn fx(x: f64) -> Fixed {
    Fixed { raw: (x * 4294967296.0).round() as i64 }
}

fn val(f: Fixed) -> f64 {
    f.raw as f64 / 4294967296.0
}

fn v(x: f64, y: f64, z: f64) -> Vec3 {
    Vec3::new(fx(x), fx(y), fx(z))
}

#[test]
fn fixed_arithmetic_exact_values() {
    assert_eq!(Fixed::from_int(3).raw, 3 * 4294967296);
    assert_eq!(Fixed::from_int(2).plus(Fixed::from_int(5)), Fixed::from_int(7));
    assert_eq!(Fixed::from_int(2).minus(Fixed::from_int(5)), Fixed::from_int(-3));
    assert_eq!(Fixed::from_int(-4).times(Fixed::from_int(3)), Fixed::from_int(-12));
    assert_eq!(Fixed::from_int(7).quotient(Fixed::from_int(2)), fx(3.5));
    assert_eq!(Fixed::ratio(1, 4), fx(0.25));
    assert_eq!(Fixed::from_int(-9).abs(), Fixed::from_int(9));
    assert_eq!(Fixed::from_int(5).negated(), Fixed::from_int(-5));
}

#[test]
fn fixed_rounds_toward_zero() {
    // 1/3 = 1431655765.33.. raw units
    assert_eq!(Fixed::ratio(1, 3).raw, 1431655765);
    assert_eq!(Fixed::ratio(-1, 3).raw, -1431655765);
    let tiny = Fixed { raw: 1 };
    assert_eq!(tiny.times(tiny).raw, 0);
    assert_eq!(Fixed { raw: -3 }.times(fx(0.5)).raw, -1);
}

#[test]
fn fixed_saturates_at_range_ends() {
    let big = Fixed { raw: i64::MAX };
    assert_eq!(big.plus(Fixed::one()).raw, i64::MAX);
    assert_eq!(big.times(Fixed::from_int(4)).raw, i64::MAX);
    assert_eq!(big.negated().minus(Fixed::from_int(9)).raw, i64::MIN);
    assert_eq!(Fixed { raw: i64::MIN }.negated().raw, i64::MAX);
    assert_eq!(Fixed::from_int(1000).quotient(Fixed { raw: 1 }).raw, i64::MAX);
}

#[test]
fn vector_operations() {
    let a = v(1.0, 2.0, 3.0);
    let b = v(4.0, -5.0, 6.0);
    assert_eq!(a.plus(b), v(5.0, -3.0, 9.0));
    assert_eq!(a.minus(b), v(-3.0, 7.0, -3.0));
    assert_eq!(a.dot(b), fx(12.0));
    assert_eq!(a.norm_squared(), fx(14.0));
    assert_eq!(a.cross(b), v(27.0, 6.0, -13.0));
    assert_eq!(a.scale(fx(0.5)), v(0.5, 1.0, 1.5));
    assert_eq!(b.divide(fx(2.0)), v(2.0, -2.5, 3.0));
    assert_eq!(a.negated(), v(-1.0, -2.0, -3.0));
}

#[test]
fn determinant_and_inverse_of_diagonal_matrix() {
    let m = Mat3::from_columns(v(2.0, 0.0, 0.0), v(0.0, 4.0, 0.0), v(0.0, 0.0, 0.5));
    assert_eq!(m.determinant(), fx(4.0));
    let inv = m.inverse();
    assert_eq!(inv, Mat3::from_columns(v(0.5, 0.0, 0.0), v(0.0, 0.25, 0.0), v(0.0, 0.0, 2.0)));
}

#[test]
fn inverse_times_matrix_is_near_identity() {
    let m = Mat3::from_columns(v(0.3, -0.2, 0.1), v(0.05, 0.4, -0.3), v(-0.1, 0.15, 0.25));
    let p = m.inverse().mul(&m);
    let cols = [p.c0, p.c1, p.c2];
    for (j, c) in cols.iter().enumerate() {
        let e = [val(c.x), val(c.y), val(c.z)];
        for i in 0..3 {
            let want = if i == j { 1.0 } else { 0.0 };
            assert!((e[i] - want).abs() < 1e-6, "entry {} {} is {}", i, j, e[i]);
        }
    }
}

#[test]
fn matrix_rows_and_products() {
    let m = Mat3::from_rows(v(1.0, 2.0, 3.0), v(4.0, 5.0, 6.0), v(7.0, 8.0, 10.0));
    assert_eq!(m.row(1), v(4.0, 5.0, 6.0));
    assert_eq!(m.c0, v(1.0, 4.0, 7.0));
    assert_eq!(m.mul_vec(v(1.0, 0.0, -1.0)), v(-2.0, -2.0, -3.0));
    assert_eq!(m.determinant(), fx(-3.0));
    let id = Mat3::from_columns(v(1.0, 0.0, 0.0), v(0.0, 1.0, 0.0), v(0.0, 0.0, 1.0));
    assert_eq!(m.mul(&id), m);
    assert_eq!(Mat3::zero().determinant(), Fixed::zero());
}
