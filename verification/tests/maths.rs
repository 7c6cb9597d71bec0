use raytracer::maths::point;
use raytracer::maths::vector;
use raytracer::maths::MathsError;
use raytracer::maths::Matrix2;
use raytracer::maths::Matrix3;
use raytracer::maths::Matrix4;
use raytracer::maths::Tuple;

#[test]
fn vectors_and_points() {
    let vec = Tuple { x: 4, y: -2, z: 3, w: 0 };
    assert!(vec.is_vector());
    assert!(!vec.is_point());

    let pt = Tuple { x: 4, y: -2, z: 3, w: 1 };
    assert!(!pt.is_vector());
    assert!(pt.is_point());
}

#[test]
fn factory() {
    let vec = vector(4, 2, -9);
    assert_eq!(vec, Tuple { x: 4, y: 2, z: -9, w: 0 });
    let vec = point(4, 2, -9);
    assert_eq!(vec, Tuple { x: 4, y: 2, z: -9, w: 1 });
}

#[test]
fn simple_arith() {
    let p = Tuple { x: 1, y: 4, z: -2, w: 1 };
    let v = Tuple { x: -3, y: -1, z: 2, w: 0 };
    assert_eq!(p.add(v), Tuple { x: -2, y: 3, z: 0, w: 1 });

    let p1 = point(2, 3, -1);
    let p2 = point(3, -1, 2);
    assert_eq!(p2.sub(p1), vector(1, -4, 3));

    let v1 = vector(1, 2, -3);
    assert_eq!(p1.sub(v1), point(1, 1, 2));
    let v2 = vector(0, 1, -1);
    assert_eq!(v1.sub(v2), vector(1, 1, -2));

    assert_eq!(v1.neg(), vector(-1, -2, 3));

    assert_eq!(p.scale(2), Tuple { x: 2, y: 8, z: -4, w: 2 });
    let doubled = Tuple { x: 2, y: 8, z: -4, w: 2 };
    assert_eq!(doubled.div(2), Ok(Tuple { x: 1, y: 4, z: -2, w: 1 }));
}

#[test]
fn norm() {
    assert_eq!(vector(1, 0, 0).norm2(), 1);
    assert_eq!(vector(0, 1, 0).norm2(), 1);
    assert_eq!(vector(0, 0, 1).norm2(), 1);
    assert_eq!(vector(1, 2, 3).norm2(), 14);
    assert_eq!(vector(-1, -2, -3).norm2(), 14);

    let v1 = vector(1, 2, 3);
    let v2 = vector(2, 3, 4);
    assert_eq!(v1.dot(v2), 20);
    assert_eq!(v1.cross(v2), vector(-1, 2, -1));
    assert_eq!(v2.cross(v1), vector(1, -2, 1));
}

#[test]
fn tuple_indexing() {
    let t = Tuple { x: 10, y: 20, z: 30, w: 40 };
    assert_eq!(t.at(0), Ok(10));
    assert_eq!(t.at(1), Ok(20));
    assert_eq!(t.at(2), Ok(30));
    assert_eq!(t.at(3), Ok(40));
    assert_eq!(t.at(4), Err(MathsError::IndexOutOfRange));

    let mut u = t;
    assert_eq!(u.set(2, -7), Ok(()));
    assert_eq!(u, Tuple { x: 10, y: 20, z: -7, w: 40 });
    assert_eq!(u.set(9, 1), Err(MathsError::IndexOutOfRange));
    assert_eq!(u, Tuple { x: 10, y: 20, z: -7, w: 40 });
}

#[test]
fn division_by_zero_is_explicit() {
    let v = vector(7, -7, 8);
    assert_eq!(v.div(0), Err(MathsError::DivisionByZero));
    // quotients round toward zero
    assert_eq!(v.div(2), Ok(Tuple { x: 3, y: -3, z: 4, w: 0 }));
}

#[test]
fn matrix() {
    let m4 = Matrix4::new(1, 2, 3, 4, 5, 6, 7, 8, 9, 10, 11, 12, 13, 14, 15, 16);
    assert_eq!(m4.m02, 3);
    assert_eq!(m4.m10, 5);
    assert_eq!(m4.m23, 12);
    assert_eq!(m4.m33, 16);

    let m4_ = Matrix4::new(1, 2, 3, 4, 5, 6, 7, 8, 9, 10, 11, 12, 13, 14, 15, 16);
    assert_eq!(m4, m4_);
    let m4_ = Matrix4::new(1, 2, 3, 4, 5, 6, 7, 8, 9, 10, 12, 12, 13, 14, 15, 16);
    assert_ne!(m4, m4_);

    let m3 = Matrix3::new(1, 2, 3, 5, 6, 7, 9, 10, 11);
    assert_eq!(m3.m02, 3);
    assert_eq!(m3.m10, 5);
    assert_eq!(m3.m22, 11);

    let m3_ = Matrix3::new(1, 2, 3, 5, 6, 7, 9, 10, 11);
    assert_eq!(m3, m3_);
    let m3_ = Matrix3::new(1, 2, 3, 5, 6, 8, 9, 10, 11);
    assert_ne!(m3, m3_);

    let m2 = Matrix2::new(1, 2, 5, 6);
    assert_eq!(m2.m01, 2);
    assert_eq!(m2.m10, 5);

    let m2_ = Matrix2::new(1, 2, 5, 6);
    assert_eq!(m2, m2_);
    let m2_ = Matrix2::new(1, 2, 5, 7);
    assert_ne!(m2, m2_);

    let m4 = Matrix4::new(1, 2, 3, 4, 5, 6, 7, 8, 9, 8, 7, 6, 5, 4, 3, 2);
    let m4_ = Matrix4::new(-2, 1, 2, 3, 3, 2, 1, -1, 4, 3, 6, 5, 1, 2, 7, 8);
    let prod = Matrix4::new(20, 22, 50, 48, 44, 54, 114, 108, 40, 58, 110, 102, 16, 26, 46, 42);
    assert_eq!(m4.mul(m4_), prod);

    let m4 = Matrix4::new(1, 2, 3, 4, 2, 4, 4, 2, 8, 6, 4, 1, 0, 0, 0, 1);
    let v = Tuple::new(1, 2, 3, 1);
    let prod = Tuple::new(18, 24, 33, 1);
    assert_eq!(m4.mul_tuple(v), prod);

    assert_eq!(Matrix4::identity().mul(m4_), m4_);
    assert_eq!(m4_.mul(Matrix4::identity()), m4_);
    assert_eq!(Matrix4::identity().mul_tuple(v), v);

    let m4_t = Matrix4::new(1, 2, 8, 0, 2, 4, 6, 0, 3, 4, 4, 0, 4, 2, 1, 1);
    assert_eq!(m4.transpose(), m4_t);
    assert_eq!(m4_t.transpose(), m4);
    assert_eq!(Matrix4::identity().transpose(), Matrix4::identity());
}

#[test]
fn matrix_indexing() {
    let m4 = Matrix4::new(1, 2, 3, 4, 5, 6, 7, 8, 9, 10, 11, 12, 13, 14, 15, 16);
    assert_eq!(m4.at(0, 0), Ok(1));
    assert_eq!(m4.at(1, 2), Ok(7));
    assert_eq!(m4.at(3, 3), Ok(16));
    assert_eq!(m4.at(4, 0), Err(MathsError::IndexOutOfRange));
    assert_eq!(m4.at(0, 4), Err(MathsError::IndexOutOfRange));

    let mut m = m4;
    assert_eq!(m.set(99, 2, 1), Ok(()));
    assert_eq!(m.at(2, 1), Ok(99));
    assert_eq!(m.at(2, 2), Ok(11));
    assert_eq!(m.set(5, 4, 4), Err(MathsError::IndexOutOfRange));
    assert_eq!(m.at(2, 1), Ok(99));

    let m3 = Matrix3::new(1, 2, 3, 4, 5, 6, 7, 8, 9);
    assert_eq!(m3.at(2, 0), Ok(7));
    assert_eq!(m3.at(3, 0), Err(MathsError::IndexOutOfRange));
    let m2 = Matrix2::new(1, 2, 3, 4);
    assert_eq!(m2.at(1, 1), Ok(4));
    assert_eq!(m2.at(2, 1), Err(MathsError::IndexOutOfRange));
}

#[test]
fn submatrices() {
    let m4 = Matrix4::new(1, 2, 3, 4, 5, 6, 7, 8, 9, 10, 11, 12, 13, 14, 15, 16);
    assert_eq!(m4.submatrix(0, 0), Matrix3::new(6, 7, 8, 10, 11, 12, 14, 15, 16));
    assert_eq!(m4.submatrix(1, 2), Matrix3::new(1, 2, 4, 9, 10, 12, 13, 14, 16));
    assert_eq!(m4.submatrix(3, 3), Matrix3::new(1, 2, 3, 5, 6, 7, 9, 10, 11));

    let m3 = Matrix3::new(1, 2, 3, 4, 5, 6, 7, 8, 9);
    assert_eq!(m3.submatrix(0, 0), Matrix2::new(5, 6, 8, 9));
    assert_eq!(m3.submatrix(1, 1), Matrix2::new(1, 3, 7, 9));
    assert_eq!(m3.minor(1, 1), Matrix2::new(1, 3, 7, 9).det());
}

#[test]
fn cofactor_expansion_3() {
    let m3 = Matrix3::new(1, 2, 6, -5, 8, -4, 2, 6, 4);
    assert_eq!(m3.cofactor(0, 0), 56);
    assert_eq!(m3.cofactor(0, 1), 12);
    assert_eq!(m3.cofactor(0, 2), -46);
    assert_eq!(m3.det(), -196);
}

#[test]
fn cofactor_expansion_4() {
    let m4 = Matrix4::new(-2, -8, 3, 5, -3, 1, 7, 3, 1, 2, -9, 6, -6, 7, 7, -9);
    assert_eq!(m4.cofactor(0, 0), 690);
    assert_eq!(m4.cofactor(0, 1), 447);
    assert_eq!(m4.cofactor(0, 2), 210);
    assert_eq!(m4.cofactor(0, 3), 51);
    assert_eq!(m4.det(), -4071);
}

#[test]
fn determinant_2() {
    let m2 = Matrix2::new(1, 5, -3, 2);
    assert_eq!(m2.det(), 17);
    assert!(m2.is_invertible());
    assert!(!Matrix2::new(1, 2, 2, 4).is_invertible());
}

#[test]
fn inverse_4() {
    let m = Matrix4::new(-5, 2, 6, -8, 1, -5, 1, 8, 7, 7, -6, -7, 1, -3, 7, 4);
    assert_eq!(m.det(), 532);
    assert!(m.is_invertible());
    let (num, den) = m.inverse().unwrap();
    assert_eq!(den, 532);
    // the numerator holds the transposed cofactors
    assert_eq!(num.at(0, 0), Ok(m.cofactor(0, 0)));
    assert_eq!(num.at(0, 1), Ok(m.cofactor(1, 0)));
    assert_eq!(num.at(3, 2), Ok(m.cofactor(2, 3)));
    // multiplying back gives the identity scaled by the determinant
    let scaled = m.mul(num);
    assert_eq!(scaled, Matrix4::new(532, 0, 0, 0, 0, 532, 0, 0, 0, 0, 532, 0, 0, 0, 0, 532));
}

#[test]
fn inverse_of_singular_matrix_fails() {
    // a zero row forces a zero determinant
    let m = Matrix4::new(1, 2, 3, 4, 0, 0, 0, 0, 9, 10, 11, 12, 13, 14, 15, 16);
    assert_eq!(m.det(), 0);
    assert!(!m.is_invertible());
    assert_eq!(m.inverse(), Err(MathsError::NotInvertible));

    let m3 = Matrix3::new(1, 2, 3, 0, 0, 0, 7, 8, 9);
    assert_eq!(m3.inverse(), Err(MathsError::NotInvertible));
    let m2 = Matrix2::new(1, 2, 2, 4);
    assert_eq!(m2.inverse(), Err(MathsError::NotInvertible));
}

#[test]
fn inverse_3_and_2() {
    let m3 = Matrix3::new(1, 2, 6, -5, 8, -4, 2, 6, 4);
    let (num3, den3) = m3.inverse().unwrap();
    assert_eq!(den3, -196);
    assert_eq!(num3.at(0, 0), Ok(m3.cofactor(0, 0)));
    assert_eq!(num3.at(1, 0), Ok(m3.cofactor(0, 1)));
    let scaled3 = m3.mul(num3);
    assert_eq!(scaled3, Matrix3::new(-196, 0, 0, 0, -196, 0, 0, 0, -196));

    let m2 = Matrix2::new(1, 2, 3, 4);
    let (num2, den2) = m2.inverse().unwrap();
    assert_eq!(den2, -2);
    assert_eq!(num2, Matrix2::new(4, -2, -3, 1));
    assert_eq!(m2.mul(num2), Matrix2::new(-2, 0, 0, -2));
}

#[test]
fn smaller_matrices_share_the_surface() {
    let m3 = Matrix3::new(1, 2, 3, 4, 5, 6, 7, 8, 9);
    assert_eq!(m3.transpose(), Matrix3::new(1, 4, 7, 2, 5, 8, 3, 6, 9));
    assert_eq!(m3.transpose().transpose(), m3);
    assert_eq!(Matrix3::identity().mul(m3), m3);
    assert_eq!(m3.mul(Matrix3::identity()), m3);
    assert_eq!(Matrix3::zero().det(), 0);

    let m2 = Matrix2::new(1, 2, 3, 4);
    assert_eq!(m2.transpose(), Matrix2::new(1, 3, 2, 4));
    assert_eq!(Matrix2::identity().mul(m2), m2);
    assert_eq!(m2.mul(Matrix2::identity()), m2);
    assert_eq!(Matrix2::zero().det(), 0);

    let mut m2m = m2;
    assert_eq!(m2m.set(9, 0, 1), Ok(()));
    assert_eq!(m2m, Matrix2::new(1, 9, 3, 4));
    let mut m3m = m3;
    assert_eq!(m3m.set(-1, 2, 2), Ok(()));
    assert_eq!(m3m.at(2, 2), Ok(-1));
}

#[test]
fn cross_is_antisymmetric() {
    let a = vector(3, -5, 7);
    let b = vector(2, 9, -4);
    assert_eq!(a.cross(b), b.cross(a).neg());
    assert_eq!(a.cross(b), vector(-43, 26, 37));
}
