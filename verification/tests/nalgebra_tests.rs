use nalgebra as na;
use vectorama::elementary::Elementary;
use vectorama::matrix::Matrix;
use vectorama::quaternion::unit::UnitQuaternion;
use vectorama::scale::scale2::Scale2;
use vectorama::scale::scale3::Scale3;
use vectorama::translation::translation2::Translation2;
use vectorama::translation::translation3::Translation3;
use vectorama::vector::vec3::Vec3;

/// The elementary functions of single precision.
struct Native;

impl Elementary<f32> for Native {
    fn epsilon(&self) -> f32 {
        f32::EPSILON
    }

    fn frac_pi_2(&self) -> f32 {
        std::f32::consts::FRAC_PI_2
    }

    fn sqrt(&self, x: f32) -> f32 {
        x.sqrt()
    }

    fn sin(&self, x: f32) -> f32 {
        x.sin()
    }

    fn cos(&self, x: f32) -> f32 {
        x.cos()
    }

    fn tan(&self, x: f32) -> f32 {
        x.tan()
    }

    fn asin(&self, x: f32) -> f32 {
        x.asin()
    }

    fn acos(&self, x: f32) -> f32 {
        x.acos()
    }

    fn atan2(&self, y: f32, x: f32) -> f32 {
        y.atan2(x)
    }
}

/// Whether `a` and `b` are equal, within `epsilon` or within a relative
/// error of machine epsilon.
fn relative_eq(a: f32, b: f32, epsilon: f32) -> bool {
    if a == b {
        return true;
    }
    if a.is_infinite() || b.is_infinite() {
        return false;
    }
    let diff = (a - b).abs();
    if diff <= epsilon {
        return true;
    }
    let largest = if a.abs() > b.abs() { a.abs() } else { b.abs() };
    diff <= largest * f32::EPSILON
}

/// The rotation in the other library that has the same Euler angles.
fn to_na(uq: &UnitQuaternion<f32>) -> na::UnitQuaternion<f32> {
    let euler = uq.to_euler_angles(&Native);
    na::UnitQuaternion::from_euler_angles(euler.x(), euler.y(), euler.z())
}

/// The rotation in this library that has the same Euler angles.
fn from_na(value: &na::UnitQuaternion<f32>) -> UnitQuaternion<f32> {
    let (x, y, z) = value.euler_angles();
    UnitQuaternion::from_euler_angles(x, y, z, &Native)
}

#[test]
fn test_matrix_look_at_with_nalgebra_look_at_rh() {
    let eye = Vec3::new(1.0, 2.0, 3.0);
    let target = Vec3::new(4.0, 5.0, 6.0);
    let up = Vec3::new(0.0, 1.0, 0.0);
    let view_matrix = Matrix::look_at(eye, target, up, &Native);

    let nalgebra_view_matrix = na::Matrix4::<f32>::look_at_rh(
        &na::Point3::new(eye.x(), eye.y(), eye.z()),
        &na::Point3::new(target.x(), target.y(), target.z()),
        &na::Vector3::new(up.x(), up.y(), up.z()),
    );

    for m in 0..4 {
        for n in 0..4 {
            assert!(relative_eq(view_matrix[(m, n)], nalgebra_view_matrix[(m, n)], 1e-6));
        }
    }
    let na_flat = nalgebra_view_matrix.as_slice();
    let flat = view_matrix.as_flattened();
    for m in 0..16 {
        assert!(relative_eq(flat[m], na_flat[m], 1e-6));
    }
}

#[test]
fn test_matrix_perspective_with_nalgebra() {
    let fov = 0.7853982;
    let aspect = 1.7777778;
    let near = 0.1;
    let far = 1000.0;
    let persp = Matrix::<f32, 4, 4>::perspective(aspect, fov, near, far, &Native);

    let nalgebra_persp = na::Matrix4::<f32>::new_perspective(aspect, fov, near, far);

    for m in 0..4 {
        for n in 0..4 {
            assert!(relative_eq(persp[(m, n)], nalgebra_persp[(m, n)], 1e-6));
        }
    }
    let na_flat = nalgebra_persp.as_slice();
    let flat = persp.as_flattened();
    for m in 0..16 {
        assert!(relative_eq(flat[m], na_flat[m], 1e-6));
    }
}

#[test]
fn orthographic_agrees_with_nalgebra() {
    let ortho = Matrix::<f32, 4, 4>::orthographic(-2.0, 6.0, -1.0, 3.0, 1.0, 11.0);
    let na_ortho = na::Matrix4::<f32>::new_orthographic(-2.0, 6.0, -1.0, 3.0, 1.0, 11.0);
    for m in 0..4 {
        for n in 0..4 {
            assert!(relative_eq(ortho[(m, n)], na_ortho[(m, n)], 1e-6));
        }
    }
}

#[test]
fn test_matrix_inverse_with_nalgebra() {
    let a = [
        [1.0, 2.0, 3.0, 4.0],
        [2.0, 1.0, 2.1, 3.0],
        [3.0, 5.5, 1.1, 2.0],
        [0.0, 0.0, 0.0, 1.0],
    ];
    let matrix_a: Matrix<f32, 4, 4> = Matrix::from(a);
    let nalgebra_matrix_a = na::Matrix4::<f32>::from_column_slice(&a.concat());
    let inv = matrix_a.try_inverse(&Native).unwrap();
    let nalgebra_inv = nalgebra_matrix_a.try_inverse().unwrap();

    for m in 0..4 {
        for n in 0..4 {
            assert!(relative_eq(inv[(m, n)], nalgebra_inv[(m, n)], 1e-6));
        }
    }
    let na_flat = nalgebra_inv.as_slice();
    let flat = inv.as_flattened();
    for m in 0..16 {
        assert!(relative_eq(flat[m], na_flat[m], 1e-6));
    }
}

#[test]
fn test_matrix4_to_nalgebra_and_back() {
    let data = [
        [1.0, 2.0, 3.0, 4.0],
        [5.0, 6.0, 7.0, 8.0],
        [9.0, 10.0, 11.0, 12.0],
        [13.0, 14.0, 15.0, 16.0],
    ];
    let matrix = Matrix::<f32, 4, 4>::from(data);

    let na_matrix = na::Matrix4::<f32>::from_column_slice(matrix.as_flattened());

    for col in 0..4 {
        for row in 0..4 {
            assert!(relative_eq(na_matrix[(row, col)], data[col][row], f32::EPSILON));
        }
    }

    let matrix2 = Matrix::<f32, 4, 4>::from_flattened(na_matrix.as_slice());

    for m in 0..4 {
        for n in 0..4 {
            assert!(relative_eq(matrix2[(m, n)], matrix[(m, n)], f32::EPSILON));
        }
    }
}

#[test]
fn test_nalgebra_matrix4_to_matrix_and_back() {
    let na_data: [f32; 16] = [
        1.0, 2.0, 3.0, 4.0, 5.0, 6.0, 7.0, 8.0, 9.0, 10.0, 11.0, 12.0, 13.0, 14.0, 15.0, 16.0,
    ];
    let na_matrix = na::Matrix4::from_column_slice(&na_data);

    let matrix: Matrix<f32, 4, 4> = Matrix::from_flattened(na_matrix.as_slice());

    for col in 0..4 {
        for row in 0..4 {
            assert!(relative_eq(matrix[(row, col)], na_matrix[(row, col)], f32::EPSILON));
        }
    }

    let na_matrix2 = na::Matrix4::<f32>::from_column_slice(matrix.as_flattened());

    for col in 0..4 {
        for row in 0..4 {
            assert!(relative_eq(na_matrix2[(row, col)], na_matrix[(row, col)], f32::EPSILON));
        }
    }
}

#[test]
fn test_unit_quaternion_from_axis_angle_with_nalgebra() {
    let axis = Vec3::new(1.0, 2.0, 3.0).normalize(&Native);
    let na_axis =
        na::UnitVector3::new_normalize(na::Vector3::new(axis.x(), axis.y(), axis.z()));
    let angle = std::f32::consts::FRAC_PI_3;

    let uq = UnitQuaternion::from_axis_angle(axis, angle, &Native);
    let na_uq = na::UnitQuaternion::from_axis_angle(&na_axis, angle);

    assert!(relative_eq(uq.vector.x(), na_uq.coords.x, 1e-6));
    assert!(relative_eq(uq.vector.y(), na_uq.coords.y, 1e-6));
    assert!(relative_eq(uq.vector.z(), na_uq.coords.z, 1e-6));
    assert!(relative_eq(uq.scalar, na_uq.coords.w, 1e-6));
}

#[test]
fn test_unit_quaternion_from_euler_angles_with_nalgebra() {
    let x = 0.1;
    let y = 0.2;
    let z = 0.3;

    let uq = UnitQuaternion::from_euler_angles(x, y, z, &Native);

    let na_qy = na::UnitQuaternion::from_axis_angle(&na::Vector3::y_axis(), y);
    let na_qx = na::UnitQuaternion::from_axis_angle(&na::Vector3::x_axis(), x);
    let na_qz = na::UnitQuaternion::from_axis_angle(&na::Vector3::z_axis(), z);
    let na_uq = na_qy * na_qx * na_qz;

    assert!(relative_eq(uq.vector.x(), na_uq.coords.x, 1e-6));
    assert!(relative_eq(uq.vector.y(), na_uq.coords.y, 1e-6));
    assert!(relative_eq(uq.vector.z(), na_uq.coords.z, 1e-6));
    assert!(relative_eq(uq.scalar, na_uq.coords.w, 1e-6));
}

#[test]
fn test_unit_quaternion_slerp_with_nalgebra() {
    let uq1 = UnitQuaternion::from_x_axis(std::f32::consts::FRAC_PI_4, &Native);
    let uq2 = UnitQuaternion::from_y_axis(std::f32::consts::FRAC_PI_4, &Native);

    let na_uq1 = to_na(&uq1);
    let na_uq2 = to_na(&uq2);

    let uq_slerp = uq1.slerp(&uq2, 0.5, &Native);
    let na_uq_slerp = na_uq1.slerp(&na_uq2, 0.5);

    assert!(relative_eq(uq_slerp.vector.x(), na_uq_slerp.coords.x, 1e-6));
    assert!(relative_eq(uq_slerp.vector.y(), na_uq_slerp.coords.y, 1e-6));
    assert!(relative_eq(uq_slerp.vector.z(), na_uq_slerp.coords.z, 1e-6));
    assert!(relative_eq(uq_slerp.scalar, na_uq_slerp.coords.w, 1e-6));
}

#[test]
fn test_unit_quaternion_conversion_to_nalgebra_and_back() {
    let uq = UnitQuaternion::from_euler_angles(0.1, 0.2, 0.3, &Native);
    let na_uq = to_na(&uq);
    let uq2 = from_na(&na_uq);

    assert!(relative_eq(uq.vector.x(), uq2.vector.x(), 1e-6));
    assert!(relative_eq(uq.vector.y(), uq2.vector.y(), 1e-6));
    assert!(relative_eq(uq.vector.z(), uq2.vector.z(), 1e-6));
    assert!(relative_eq(uq.scalar, uq2.scalar, 1e-6));
}

#[test]
fn test_scale2_compare_with_nalgebra() {
    let s = Scale2::new(2.0, 3.0);
    let na_s = na::geometry::Scale2::new(2.0, 3.0);

    let mat = s.homogeneous_matrix();
    let na_mat = na_s.to_homogeneous();
    for i in 0..9 {
        assert!(relative_eq(mat.as_flattened()[i], na_mat.as_slice()[i], f32::EPSILON));
    }

    let s2 = Scale2::from(mat);
    assert!(relative_eq(s2.x(), na_s.x, f32::EPSILON));
    assert!(relative_eq(s2.y(), na_s.y, f32::EPSILON));
}

#[test]
fn test_scale3_compare_with_nalgebra() {
    let s = Scale3::new(2.0, 3.0, 4.0);
    let na_s = na::geometry::Scale3::new(2.0, 3.0, 4.0);

    let mat = s.homogeneous_matrix();
    let na_mat = na_s.to_homogeneous();
    for i in 0..16 {
        assert!(relative_eq(mat.as_flattened()[i], na_mat.as_slice()[i], f32::EPSILON));
    }

    let s2 = Scale3::from(mat);
    assert!(relative_eq(s2.x(), na_s.x, f32::EPSILON));
    assert!(relative_eq(s2.y(), na_s.y, f32::EPSILON));
    assert!(relative_eq(s2.z(), na_s.z, f32::EPSILON));
}

#[test]
fn test_translation2_compare_with_nalgebra() {
    let t = Translation2::new(1.0, 2.0);
    let na_t = na::geometry::Translation2::new(1.0, 2.0);

    let mat = t.homogeneous_matrix();
    let na_mat = na_t.to_homogeneous();
    for i in 0..9 {
        assert!(relative_eq(mat.as_flattened()[i], na_mat.as_slice()[i], f32::EPSILON));
    }

    let t2 = Translation2::from(mat);
    assert!(relative_eq(t2.x(), na_t.x, f32::EPSILON));
    assert!(relative_eq(t2.y(), na_t.y, f32::EPSILON));
}

#[test]
fn test_translation3_compare_with_nalgebra() {
    let t = Translation3::new(1.0, 2.0, 3.0);
    let na_t = na::geometry::Translation3::new(1.0, 2.0, 3.0);

    let mat = t.homogeneous_matrix();
    let na_mat = na_t.to_homogeneous();
    for i in 0..16 {
        assert!(relative_eq(mat.as_flattened()[i], na_mat.as_slice()[i], f32::EPSILON));
    }

    let t2 = Translation3::from(mat);
    assert!(relative_eq(t2.x(), na_t.x, f32::EPSILON));
    assert!(relative_eq(t2.y(), na_t.y, f32::EPSILON));
    assert!(relative_eq(t2.z(), na_t.z, f32::EPSILON));
}
