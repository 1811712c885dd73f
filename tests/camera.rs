use cam::{model_view_projection, Camera, Matrix4, Quaternion, Vector3, Vector4};

fn v(x: i64, y: i64, z: i64) -> Vector3 {
    Vector3::new(x, y, z)
}

fn cols(c: [[i64; 4]; 4]) -> Matrix4 {
    Matrix4::from_cols(
        Vector4::new(c[0][0], c[0][1], c[0][2], c[0][3]),
        Vector4::new(c[1][0], c[1][1], c[1][2], c[1][3]),
        Vector4::new(c[2][0], c[2][1], c[2][2], c[2][3]),
        Vector4::new(c[3][0], c[3][1], c[3][2], c[3][3]),
    )
}

fn assert_canonical(c: &Camera) {
    assert_eq!(c.forward, v(0, 0, 1));
    assert_eq!(c.up, v(0, 1, 0));
    assert_eq!(c.right, v(1, 0, 0));
}

fn assert_right_orthogonal(c: &Camera) {
    assert_eq!(c.right.dot(&c.up), 0);
    assert_eq!(c.right.dot(&c.forward), 0);
}

#[test]
fn new_has_canonical_basis() {
    let c = Camera::new(v(4, -5, 6));
    assert_eq!(c.position, v(4, -5, 6));
    assert_canonical(&c);
}

#[test]
fn new_view_is_translation_to_origin() {
    let c = Camera::new(v(1, 2, 3));
    let m = c.orthogonal();
    let expected = cols([[1, 0, 0, 0], [0, 1, 0, 0], [0, 0, 1, 0], [-1, -2, -3, 1]]);
    assert_eq!(m, expected);
    assert_eq!(m.transform(&Vector4::new(1, 2, 3, 1)), Vector4::new(0, 0, 0, 1));
}

#[test]
fn orthogonal_of_rotated_camera() {
    let mut c = Camera::new(v(1, 2, 3));
    c.set_yaw_pitch(1, 0, 0, 1);
    // right (0,0,-1), up (0,1,0), forward (1,0,0)
    let m = c.orthogonal();
    let expected = cols([[0, 0, 1, 0], [0, 1, 0, 0], [-1, 0, 0, 0], [3, -2, -1, 1]]);
    assert_eq!(m, expected);
}

#[test]
fn origin_camera_view_is_identity() {
    let c = Camera::new(v(0, 0, 0));
    assert_eq!(c.orthogonal(), Matrix4::identity());
}

#[test]
fn yaw_pitch_zero_gives_canonical_basis() {
    let mut c = Camera::new(v(7, 8, 9));
    c.set_yaw_pitch(1, 0, 1, 0);
    c.set_yaw_pitch(0, 1, 0, 1);
    assert_canonical(&c);
    assert_eq!(c.position, v(7, 8, 9));
}

#[test]
fn yaw_quarter_turn() {
    let mut c = Camera::new(v(0, 0, 0));
    c.set_yaw_pitch(1, 0, 0, 1);
    assert_eq!(c.forward, v(1, 0, 0));
    assert_eq!(c.up, v(0, 1, 0));
    assert_eq!(c.right, v(0, 0, -1));
    assert_right_orthogonal(&c);
}

#[test]
fn pitch_quarter_turn() {
    let mut c = Camera::new(v(0, 0, 0));
    c.set_yaw_pitch(0, 1, 1, 0);
    assert_eq!(c.forward, v(0, 1, 0));
    assert_eq!(c.up, v(0, 0, -1));
    assert_eq!(c.right, v(1, 0, 0));
    assert_right_orthogonal(&c);
}

#[test]
fn identity_rotation_matches_zero_yaw_pitch() {
    let mut a = Camera::new(v(1, 1, 1));
    a.set_yaw_pitch(1, 0, 0, 1);
    a.set_rotation(Quaternion::one());
    let mut b = Camera::new(v(1, 1, 1));
    b.set_yaw_pitch(0, 1, 0, 1);
    assert_eq!(a, b);
    assert_canonical(&a);
}

#[test]
fn half_turn_about_up() {
    let mut c = Camera::new(v(2, 3, 4));
    c.set_rotation(Quaternion::from_sv(0, v(0, 1, 0)));
    assert_eq!(c.forward, v(0, 0, -1));
    assert_eq!(c.up, v(0, 1, 0));
    assert_eq!(c.right, v(-1, 0, 0));
    assert_eq!(c.position, v(2, 3, 4));
    assert_right_orthogonal(&c);
}

#[test]
fn rotation_is_from_reference_frame() {
    let mut c = Camera::new(v(0, 0, 0));
    let q = Quaternion::from_sv(0, v(1, 0, 0));
    c.set_rotation(q);
    c.set_rotation(q);
    assert_eq!(c.forward, v(0, 0, -1));
    assert_eq!(c.up, v(0, -1, 0));
    assert_eq!(c.right, v(1, 0, 0));
}

#[test]
fn look_at_points_away_from_target() {
    let mut c = Camera::new(v(1, 2, 3));
    c.look_at(v(1, 2, 5));
    assert_eq!(c.forward, v(0, 0, -2));
    assert_eq!(c.up, v(0, 1, 0));
    assert_eq!(c.right, v(-2, 0, 0));
    assert_eq!(c.position, v(1, 2, 3));
    assert_right_orthogonal(&c);
}

#[test]
fn look_at_keeps_up_unnormalised() {
    let mut c = Camera::new(v(0, 0, 0));
    c.up = v(1, 1, 0);
    c.look_at(v(-3, 4, 5));
    assert_eq!(c.forward, v(3, -4, -5));
    assert_eq!(c.right, v(-5, 5, -7));
    assert_right_orthogonal(&c);
}

#[test]
fn mvp_of_identities_is_identity() {
    let i = Matrix4::identity();
    assert_eq!(model_view_projection(i, i, i), i);
}

#[test]
fn mvp_composes_in_order() {
    let model = cols([[2, 0, 0, 0], [0, 2, 0, 0], [0, 0, 2, 0], [0, 0, 0, 1]]);
    let view = cols([[1, 0, 0, 0], [0, 1, 0, 0], [0, 0, 1, 0], [1, 0, 0, 1]]);
    let projection = cols([[0, 1, 0, 0], [1, 0, 0, 0], [0, 0, 1, 0], [0, 0, 0, 1]]);
    // projection * view swaps x and y after the translation by (1, 0, 0)
    let expected = cols([[0, 2, 0, 0], [2, 0, 0, 0], [0, 0, 2, 0], [0, 2, 0, 1]]);
    assert_eq!(model_view_projection(model, view, projection), expected);
}

#[test]
fn matrix_product_exact_value() {
    let a = cols([[1, 2, 3, 4], [5, 6, 7, 8], [9, 10, 11, 12], [13, 14, 15, 16]]);
    let b = cols([[1, 0, 2, 0], [0, 1, 0, 3], [1, 1, 1, 1], [2, 0, 0, 1]]);
    let expected = cols([
        [19, 22, 25, 28],
        [44, 48, 52, 56],
        [28, 32, 36, 40],
        [15, 18, 21, 24],
    ]);
    assert_eq!(a.multiply(&b), expected);
}

#[test]
fn dot_and_cross_exact_values() {
    assert_eq!(v(1, 2, 3).dot(&v(4, -5, 6)), 12);
    assert_eq!(v(1, 2, 3).cross(&v(4, 5, 6)), v(-3, 6, -3));
    let big = 3_000_000_000i64;
    assert_eq!(v(big, 0, 0).dot(&v(big, 0, 0)), 9_000_000_000_000_000_000);
    assert_eq!(v(big, 1, 0).cross(&v(1, big, 0)), v(0, 0, 8_999_999_999_999_999_999));
}

#[test]
fn vector_arithmetic_exact_values() {
    assert_eq!(v(1, 2, 3).add(&v(10, 20, 30)), v(11, 22, 33));
    assert_eq!(v(1, 2, 3).sub(&v(10, 20, 30)), v(-9, -18, -27));
    assert_eq!(v(1, -2, 3).scale(-3), v(-3, 6, -9));
}

#[test]
fn rotate_vector_exact_values() {
    let q = Quaternion::from_sv(0, v(0, 0, 1));
    assert_eq!(q.rotate_vector(&v(1, 0, 0)), v(-1, 0, 0));
    assert_eq!(Quaternion::one().rotate_vector(&v(5, -6, 7)), v(5, -6, 7));
}
