use nalgebra_glm as glm;
use rust_opengl::math::Mat4;
use rust_opengl::math::Transform;
use rust_opengl::math_data::GVec3;
use rust_opengl::scalar::Scalar;

fn s(x: f32) -> Scalar {
    Scalar::from_bits(x.to_bits())
}

fn f(x: Scalar) -> f32 {
    f32::from_bits(x.to_bits())
}

fn to_glm(m: &Mat4) -> glm::Mat4 {
    glm::Mat4::new(
        f(m.m11),
        f(m.m12),
        f(m.m13),
        f(m.m14),
        f(m.m21),
        f(m.m22),
        f(m.m23),
        f(m.m24),
        f(m.m31),
        f(m.m32),
        f(m.m33),
        f(m.m34),
        f(m.m41),
        f(m.m42),
        f(m.m43),
        f(m.m44),
    )
}

fn from_glm(m: &glm::Mat4) -> Mat4 {
    Mat4 {
        m11: s(m.m11),
        m12: s(m.m12),
        m13: s(m.m13),
        m14: s(m.m14),
        m21: s(m.m21),
        m22: s(m.m22),
        m23: s(m.m23),
        m24: s(m.m24),
        m31: s(m.m31),
        m32: s(m.m32),
        m33: s(m.m33),
        m34: s(m.m34),
        m41: s(m.m41),
        m42: s(m.m42),
        m43: s(m.m43),
        m44: s(m.m44),
    }
}

fn scale(t: &mut Transform, x: f32, y: f32, z: f32) {
    let product = glm::scale(&to_glm(t.get()), &glm::vec3(x, y, z));
    t.set(from_glm(&product));
}

fn translate(t: &mut Transform, x: f32, y: f32, z: f32) {
    let product = glm::translate(&to_glm(t.get()), &glm::vec3(x, y, z));
    t.set(from_glm(&product));
}

fn rotate(t: &mut Transform, angle: f32, axis: &glm::Vec3) {
    let product = glm::rotate(&to_glm(t.get()), angle, axis);
    t.set(from_glm(&product));
}

fn rows(t: &Transform) -> [[f32; 4]; 4] {
    let raw = t.get_raw();
    let mut out = [[0.0f32; 4]; 4];
    for r in 0..4 {
        for c in 0..4 {
            out[r][c] = f(raw[r][c]);
        }
    }
    out
}

#[test]
fn matrices_cross_over_unchanged() {
    let m = glm::Mat4::new(
        1.0, 2.0, 3.0, 4.0, 5.0, 6.0, 7.0, 8.0, 9.0, 10.0, 11.0, 12.0, 13.0, 14.0, 15.0, 16.0,
    );
    assert_eq!(to_glm(&from_glm(&m)), m);
    let mut t = Transform::new();
    t.set(from_glm(&m));
    assert_eq!(rows(&t)[0], [1.0, 2.0, 3.0, 4.0]);
    assert_eq!(rows(&t)[3], [13.0, 14.0, 15.0, 16.0]);
    assert_eq!(f(t.get().m14), m[(0, 3)]);
}

#[test]
fn translate_then_scale_is_not_scale_then_translate() {
    let mut a = Transform::new();
    translate(&mut a, 1.0, 0.0, 0.0);
    scale(&mut a, 2.0, 2.0, 2.0);
    let mut b = Transform::new();
    scale(&mut b, 2.0, 2.0, 2.0);
    translate(&mut b, 1.0, 0.0, 0.0);
    assert_ne!(rows(&a), rows(&b));
    assert_eq!(
        rows(&a),
        [
            [2.0, 0.0, 0.0, 1.0],
            [0.0, 2.0, 0.0, 0.0],
            [0.0, 0.0, 2.0, 0.0],
            [0.0, 0.0, 0.0, 1.0]
        ]
    );
    assert_eq!(
        rows(&b),
        [
            [2.0, 0.0, 0.0, 2.0],
            [0.0, 2.0, 0.0, 0.0],
            [0.0, 0.0, 2.0, 0.0],
            [0.0, 0.0, 0.0, 1.0]
        ]
    );
}

#[test]
fn operations_multiply_from_the_right_in_call_order() {
    let axis = glm::vec3(1.0, 0.3, 0.5f32);
    let mut t = Transform::new();
    translate(&mut t, -1.7, 3.0, -7.5);
    rotate(&mut t, 2.9, &axis);
    scale(&mut t, 0.2, 0.4, 0.8);
    let id: glm::Mat4 = glm::identity();
    let want = glm::scale(
        &glm::rotate(&glm::translate(&id, &glm::vec3(-1.7, 3.0, -7.5)), 2.9, &axis),
        &glm::vec3(0.2, 0.4, 0.8),
    );
    assert_eq!(to_glm(t.get()), want);
    let product = glm::translation(&glm::vec3(-1.7, 3.0, -7.5))
        * glm::rotation(2.9, &axis)
        * glm::scaling(&glm::vec3(0.2, 0.4, 0.8));
    let got = to_glm(t.get());
    for r in 0..4 {
        for c in 0..4 {
            assert!((got[(r, c)] - product[(r, c)]).abs() < 1e-5);
        }
    }
}

#[test]
fn move_to_after_scale_and_rotation_keeps_the_block() {
    let mut t = Transform::new();
    scale(&mut t, 100.0, 100.0, 100.0);
    rotate(&mut t, -std::f32::consts::FRAC_PI_2, &glm::vec3(1.0, 0.0, 0.0));
    translate(&mut t, -0.2, -0.4, -0.1);
    let before = rows(&t);
    t.move_to(s(1.2), s(2.0), s(2.0));
    let after = rows(&t);
    for r in 0..3 {
        for c in 0..3 {
            assert_eq!(after[r][c].to_bits(), before[r][c].to_bits());
        }
    }
    assert_eq!(after[3], before[3]);
    assert_eq!([after[0][3], after[1][3], after[2][3]], [1.2, 2.0, 2.0]);
}

#[test]
fn orbit_about_the_z_axis_keeps_the_distance() {
    let mut position = GVec3::new(s(1.2), s(2.0), s(2.0));
    let start = glm::vec3(1.2, 2.0, 2.0f32);
    let mut bulb = Transform::new();
    for step in 0..500 {
        let held = glm::vec3(f(position.data.x), f(position.data.y), f(position.data.z));
        let angle = std::f32::consts::PI / 14.0 * (0.016 + step as f32 * 0.001);
        let turned = glm::rotate_vec3(&held, angle, &glm::vec3(0.0, 0.0, 1.0));
        position = GVec3::new(s(turned.x), s(turned.y), s(turned.z));
        bulb.move_to(position.data.x, position.data.y, position.data.z);
        assert!((glm::length(&turned) - glm::length(&start)).abs() < 1e-3);
        assert_eq!(turned.z, 2.0);
        assert_eq!(f(bulb.get().m14), turned.x);
        assert_eq!(f(bulb.get().m24), turned.y);
        assert_eq!(f(bulb.get().m34), turned.z);
    }
}
