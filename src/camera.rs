//! A camera: a position and a basis, and the matrices built from them.
use vstd::prelude::*;

use crate::linalg::{
    cross3, dot3, fits, fits3, fits_m4, mat_mul, mat_vec, rotate3, rotate_fits, sub3, M4, V3,
    Matrix4, Quaternion, Vector3, Vector4,
};

verus! {

/// The model-view-projection product `model * (projection * view)`.
pub open spec fn mvp(model: M4, view: M4, projection: M4) -> M4 {
    mat_mul(model, mat_mul(projection, view))
}

/// Computes a model view projection matrix: `model * (projection * view)`.
pub fn model_view_projection(model: Matrix4, view: Matrix4, projection: Matrix4) -> (r: Matrix4)
    requires
        fits_m4(mat_mul(projection@, view@)),
        fits_m4(mvp(model@, view@, projection@)),
    ensures
        r@ == mvp(model@, view@, projection@),
{
    model.multiply(&projection.multiply(&view))
}

/// A camera with a position and right, up and forward directions.
///
/// `new` and every method that changes up or forward leave right equal to
/// `up × forward` (`right_consistent`). Up and forward are taken as given:
/// nothing here normalises them or makes them orthogonal.
#[derive(Clone, Copy, Debug, PartialEq, Eq, Structural)]
pub struct Camera {
    /// The camera position.
    pub position: Vector3,
    /// The up direction.
    pub up: Vector3,
    /// The right direction.
    pub right: Vector3,
    /// The forward direction.
    pub forward: Vector3,
}

/// The view matrix of a camera at `p` with basis `r`, `u`, `f`: its rows are
/// the basis vectors, each followed by its negated dot product with `p`, and
/// the last row is `(0, 0, 0, 1)`.
pub open spec fn view_matrix(p: V3, r: V3, u: V3, f: V3) -> M4 {
    (
        (r.0, u.0, f.0, 0),
        (r.1, u.1, f.1, 0),
        (r.2, u.2, f.2, 0),
        (-dot3(r, p), -dot3(u, p), -dot3(f, p), 1),
    )
}

/// The forward direction for the given sines and cosines of yaw and pitch.
pub open spec fn yaw_pitch_forward(y_s: int, y_c: int, p_s: int, p_c: int) -> V3 {
    (y_s * p_c, p_s, y_c * p_c)
}

/// The up direction for the given sines and cosines of yaw and pitch.
pub open spec fn yaw_pitch_up(y_s: int, y_c: int, p_s: int, p_c: int) -> V3 {
    (y_s * -p_s, p_c, y_c * -p_s)
}

impl Camera {
    /// Whether `right` is the cross product `up × forward`.
    pub open spec fn right_consistent(&self) -> bool {
        self.right@ == cross3(self.up@, self.forward@)
    }

    /// The view matrix of this camera.
    pub open spec fn view_spec(&self) -> M4 {
        view_matrix(self.position@, self.right@, self.up@, self.forward@)
    }

    /// Every entry of this camera's view matrix fits in an `i64`.
    pub open spec fn orthogonal_fits(&self) -> bool {
        &&& fits(dot3(self.right@, self.position@))
        &&& fits(-dot3(self.right@, self.position@))
        &&& fits(dot3(self.up@, self.position@))
        &&& fits(-dot3(self.up@, self.position@))
        &&& fits(dot3(self.forward@, self.position@))
        &&& fits(-dot3(self.forward@, self.position@))
    }

    /// Constructs a camera at `position`, looking towards positive z: right
    /// `(1, 0, 0)`, up `(0, 1, 0)`, forward `(0, 0, 1)`.
    pub fn new(position: Vector3) -> (r: Camera)
        ensures
            r.position == position,
            r.right@ == (1int, 0int, 0int),
            r.up@ == (0int, 1int, 0int),
            r.forward@ == (0int, 0int, 1int),
            r.right_consistent(),
    {
        Camera {
            position,
            right: Vector3::new(1, 0, 0),
            up: Vector3::new(0, 1, 0),
            forward: Vector3::new(0, 0, 1),
        }
    }

    /// Computes the view matrix of the camera, which takes world coordinates
    /// to camera coordinates.
    pub fn orthogonal(&self) -> (m: Matrix4)
        requires
            self.orthogonal_fits(),
        ensures
            m@ == self.view_spec(),
    {
        let p = &self.position;
        let r = &self.right;
        let u = &self.up;
        let f = &self.forward;
        Matrix4::from_cols(
            Vector4::new(r.x, u.x, f.x, 0),
            Vector4::new(r.y, u.y, f.y, 0),
            Vector4::new(r.z, u.z, f.z, 0),
            Vector4::new(-r.dot(p), -u.dot(p), -f.dot(p), 1),
        )
    }

    /// Orients the camera by `point`: forward becomes `position - point`
    /// (pointing away from `point`), and right is recomputed from the current up.
    pub fn look_at(&mut self, point: Vector3)
        requires
            fits3(sub3(old(self).position@, point@)),
            fits3(cross3(old(self).up@, sub3(old(self).position@, point@))),
        ensures
            final(self).forward@ == sub3(old(self).position@, point@),
            final(self).right_consistent(),
            final(self).position == old(self).position,
            final(self).up == old(self).up,
            dot3(final(self).right@, final(self).up@) == 0,
            dot3(final(self).right@, final(self).forward@) == 0,
    {
        self.forward = self.position.sub(&point);
        self.update_right();
        proof {
            lemma_cross_orthogonal(self.up@, self.forward@);
        }
    }

    /// Sets the orientation from a yaw and a pitch, each given by its sine and
    /// cosine (`y_s`, `y_c`, `p_s`, `p_c`), as exact coordinates hold them:
    /// forward `(y_s * p_c, p_s, y_c * p_c)`, up `(y_s * -p_s, p_c, y_c * -p_s)`,
    /// and right `up × forward`. When both pairs are on the unit circle, forward
    /// and up are orthonormal (`lemma_yaw_pitch_orthonormal`).
    pub fn set_yaw_pitch(&mut self, y_s: i64, y_c: i64, p_s: i64, p_c: i64)
        requires
            fits(-p_s),
            fits3(yaw_pitch_forward(y_s as int, y_c as int, p_s as int, p_c as int)),
            fits3(yaw_pitch_up(y_s as int, y_c as int, p_s as int, p_c as int)),
            fits3(
                cross3(
                    yaw_pitch_up(y_s as int, y_c as int, p_s as int, p_c as int),
                    yaw_pitch_forward(y_s as int, y_c as int, p_s as int, p_c as int),
                ),
            ),
        ensures
            final(self).forward@ == yaw_pitch_forward(y_s as int, y_c as int, p_s as int, p_c as int),
            final(self).up@ == yaw_pitch_up(y_s as int, y_c as int, p_s as int, p_c as int),
            final(self).right_consistent(),
            final(self).position == old(self).position,
            dot3(final(self).right@, final(self).up@) == 0,
            dot3(final(self).right@, final(self).forward@) == 0,
    {
        let neg_p_s = -p_s;
        self.forward = Vector3::new(
            (y_s as i128 * p_c as i128) as i64,
            p_s,
            (y_c as i128 * p_c as i128) as i64,
        );
        self.up = Vector3::new(
            (y_s as i128 * neg_p_s as i128) as i64,
            p_c,
            (y_c as i128 * neg_p_s as i128) as i64,
        );
        self.update_right();
        proof {
            lemma_cross_orthogonal(self.up@, self.forward@);
        }
    }

    /// Sets forward and up to `rotation` applied to `(0, 0, 1)` and `(0, 1, 0)`
    /// (the fixed reference directions, not the current ones), and right to
    /// `up × forward`.
    pub fn set_rotation(&mut self, rotation: Quaternion)
        requires
            rotate_fits(rotation@, (0, 0, 1)),
            rotate_fits(rotation@, (0, 1, 0)),
            fits3(cross3(rotate3(rotation@, (0, 1, 0)), rotate3(rotation@, (0, 0, 1)))),
        ensures
            final(self).forward@ == rotate3(rotation@, (0, 0, 1)),
            final(self).up@ == rotate3(rotation@, (0, 1, 0)),
            final(self).right_consistent(),
            final(self).position == old(self).position,
            dot3(final(self).right@, final(self).up@) == 0,
            dot3(final(self).right@, final(self).forward@) == 0,
    {
        let forward = Vector3::new(0, 0, 1);
        let up = Vector3::new(0, 1, 0);
        self.forward = rotation.rotate_vector(&forward);
        self.up = rotation.rotate_vector(&up);
        self.update_right();
        proof {
            lemma_cross_orthogonal(self.up@, self.forward@);
        }
    }

    /// Recomputes right as `up × forward`.
    fn update_right(&mut self)
        requires
            fits3(cross3(old(self).up@, old(self).forward@)),
        ensures
            final(self).right@ == cross3(old(self).up@, old(self).forward@),
            final(self).position == old(self).position,
            final(self).up == old(self).up,
            final(self).forward == old(self).forward,
    {
        self.right = self.up.cross(&self.forward);
    }
}

/// The matrix that translates a point by `t`: the identity with last column `(t, 1)`.
pub open spec fn translation(t: V3) -> M4 {
    ((1, 0, 0, 0), (0, 1, 0, 0), (0, 0, 1, 0), (t.0, t.1, t.2, 1))
}

/// A camera with the basis of `Camera::new` has as view matrix the identity
/// rotation translated by minus its position, and that matrix takes the
/// position, as a point, to the origin.
pub proof fn lemma_new_view_is_translation(c: Camera)
    requires
        c.right@ == (1int, 0int, 0int),
        c.up@ == (0int, 1int, 0int),
        c.forward@ == (0int, 0int, 1int),
    ensures
        c.view_spec() == translation((-c.position.x, -c.position.y, -c.position.z)),
        mat_vec(c.view_spec(), (c.position.x as int, c.position.y as int, c.position.z as int, 1))
            == (0int, 0int, 0int, 1int),
{
}

/// With `y_s² + y_c² = 1` and `p_s² + p_c² = 1`, the forward and up directions
/// of a yaw and a pitch are unit vectors and orthogonal to each other.
pub proof fn lemma_yaw_pitch_orthonormal(y_s: int, y_c: int, p_s: int, p_c: int)
    requires
        y_s * y_s + y_c * y_c == 1,
        p_s * p_s + p_c * p_c == 1,
    ensures
        dot3(yaw_pitch_forward(y_s, y_c, p_s, p_c), yaw_pitch_forward(y_s, y_c, p_s, p_c)) == 1,
        dot3(yaw_pitch_up(y_s, y_c, p_s, p_c), yaw_pitch_up(y_s, y_c, p_s, p_c)) == 1,
        dot3(yaw_pitch_forward(y_s, y_c, p_s, p_c), yaw_pitch_up(y_s, y_c, p_s, p_c)) == 0,
{
    assert((y_s * p_c) * (y_s * p_c) + p_s * p_s + (y_c * p_c) * (y_c * p_c) == 1)
        by (nonlinear_arith)
        requires
            y_s * y_s + y_c * y_c == 1,
            p_s * p_s + p_c * p_c == 1,
    ;
    assert((y_s * -p_s) * (y_s * -p_s) + p_c * p_c + (y_c * -p_s) * (y_c * -p_s) == 1)
        by (nonlinear_arith)
        requires
            y_s * y_s + y_c * y_c == 1,
            p_s * p_s + p_c * p_c == 1,
    ;
    assert((y_s * p_c) * (y_s * -p_s) + p_s * p_c + (y_c * p_c) * (y_c * -p_s) == 0)
        by (nonlinear_arith)
        requires
            y_s * y_s + y_c * y_c == 1,
    ;
}

/// The cross product of two vectors is orthogonal to each of them.
pub proof fn lemma_cross_orthogonal(a: V3, b: V3)
    ensures
        dot3(cross3(a, b), a) == 0,
        dot3(cross3(a, b), b) == 0,
{
    assert(dot3(cross3(a, b), a) == 0) by (nonlinear_arith);
    assert(dot3(cross3(a, b), b) == 0) by (nonlinear_arith);
}

} // verus!
