use vectorama::elementary::Elementary;
use vectorama::vector::vec2::Vec2;

/// The elementary functions of single precision.
struct Native;

impl Elementary<f32> for Native {
    fn epsilon(&self) -> f32 {
        f32::EPSILON
    }

    fn frac_pi_2(&self) -> f32 {
        std::f32::consts::FRAC_PI_2
    }

    fn sqrt(&self, x: f32) -> f32 {
        x.sqrt()
    }

    fn sin(&self, x: f32) -> f32 {
        x.sin()
    }

    fn cos(&self, x: f32) -> f32 {
        x.cos()
    }

    fn tan(&self, x: f32) -> f32 {
        x.tan()
    }

    fn asin(&self, x: f32) -> f32 {
        x.asin()
    }

    fn acos(&self, x: f32) -> f32 {
        x.acos()
    }

    fn atan2(&self, y: f32, x: f32) -> f32 {
        y.atan2(x)
    }
}

/// Whether `a` and `b` are equal, within `epsilon` or within a relative
/// error of machine epsilon.
fn relative_eq(a: f32, b: f32, epsilon: f32) -> bool {
    if a == b {
        return true;
    }
    if a.is_infinite() || b.is_infinite() {
        return false;
    }
    let diff = (a - b).abs();
    if diff <= epsilon {
        return true;
    }
    let largest = if a.abs() > b.abs() { a.abs() } else { b.abs() };
    diff <= largest * f32::EPSILON
}

#[test]
fn test_vec2_new_and_fields() {
    let v = Vec2::new(1.0, 2.0);
    assert!(relative_eq(v.x(), 1.0, f32::EPSILON));
    assert!(relative_eq(v.y(), 2.0, f32::EPSILON));
}

#[test]
fn test_vec2_from_array() {
    let v = Vec2::from([3.0, 4.0]);
    assert!(relative_eq(v.x(), 3.0, f32::EPSILON));
    assert!(relative_eq(v.y(), 4.0, f32::EPSILON));
}

#[test]
fn test_vec2_add() {
    let a = Vec2::new(1.0, 2.0);
    let b = Vec2::new(3.0, 4.0);
    let result = a + b;
    assert!(relative_eq(result.x(), 4.0, f32::EPSILON));
    assert!(relative_eq(result.y(), 6.0, f32::EPSILON));
}

#[test]
fn test_vec2_sub() {
    let a = Vec2::new(5.0, 7.0);
    let b = Vec2::new(2.0, 3.0);
    let result = a - b;
    assert!(relative_eq(result.x(), 3.0, f32::EPSILON));
    assert!(relative_eq(result.y(), 4.0, f32::EPSILON));
}

#[test]
fn test_vec2_mul_scalar() {
    let v = Vec2::new(2.0, 3.0);
    let result = v * 4.0;
    assert!(relative_eq(result.x(), 8.0, f32::EPSILON));
    assert!(relative_eq(result.y(), 12.0, f32::EPSILON));
}

#[test]
fn test_vec2_div_scalar() {
    let v = Vec2::new(8.0, 6.0);
    let result = v / 2.0;
    assert!(relative_eq(result.x(), 4.0, f32::EPSILON));
    assert!(relative_eq(result.y(), 3.0, f32::EPSILON));
}

#[test]
fn test_vec2_neg() {
    let v = Vec2::new(1.0, -2.0);
    let result = -v;
    assert!(relative_eq(result.x(), -1.0, f32::EPSILON));
    assert!(relative_eq(result.y(), 2.0, f32::EPSILON));
}

#[test]
fn test_vec2_dot() {
    let a = Vec2::new(1.0, 2.0);
    let b = Vec2::new(3.0, 4.0);
    let dot = a.dot(&b);
    assert!(relative_eq(dot, 1.0 * 3.0 + 2.0 * 4.0, f32::EPSILON));
}

#[test]
fn test_vec2_magnitude() {
    let v = Vec2::new(3.0, 4.0);
    let mag = v.magnitude(&Native);
    assert!(relative_eq(mag, 5.0, f32::EPSILON));
}

#[test]
fn test_vec2_normalize() {
    let v = Vec2::new(0.0, 5.0);
    let n = v.normalize(&Native);
    let mag = n.magnitude(&Native);
    assert!(relative_eq(mag, 1.0, f32::EPSILON));
    assert!(relative_eq(n.x(), 0.0, f32::EPSILON));
    assert!(relative_eq(n.y(), 1.0, f32::EPSILON));
}

#[test]
fn test_vec2_cross() {
    let a = Vec2::new(1.0, 2.0);
    let b = Vec2::new(3.0, 4.0);
    let cross = a.x() * b.y() - a.y() * b.x();
    assert!(relative_eq(a.dot(&b), 11.0, f32::EPSILON));
    assert!(relative_eq(cross, -2.0, f32::EPSILON));
}

#[test]
fn test_vec2_xyz() {
    let v = Vec2::new(1.0, 2.0);
    let vec3 = v.xyz(3.0);
    assert!(relative_eq(vec3.x(), 1.0, f32::EPSILON));
    assert!(relative_eq(vec3.y(), 2.0, f32::EPSILON));
    assert!(relative_eq(vec3.z(), 3.0, f32::EPSILON));
}
