//! The camera state and the operations that move it.

use vstd::prelude::*;
use vstd::std_specs::cmp::{PartialOrdIs, PartialOrdSpec};
use cgmath::{BaseFloat, Matrix4, Quaternion, Vector2, Vector3};
use crate::algebra::{
    coordinates, difference, dot, extended, identity_matrix, inverse, matrix_product, negated,
    normalized, one, product, quaternion, quaternion_product, quotient, rotation_matrix, scaled,
    square_root, sum, translation_matrix, vector2, vector3, zero,
};
use crate::algebra::{
    has_coordinates, is_difference, is_dot, is_extended, is_identity_matrix, is_inverse,
    is_matrix_product, is_negation, is_normalized, is_one, is_product, is_quaternion,
    is_quaternion_product, is_quotient, is_rotation_matrix, is_scaled, is_square_root, is_sum,
    is_translation_matrix, is_vector2, is_vector3, is_zero,
};

verus! {

/// Why a camera could not be built or moved.
#[derive(Clone, Copy, Debug, PartialEq, Eq)]
pub enum CameraError {
    /// The view transform that was asked for has no inverse.
    SingularView,
}

/// An arcball camera over the scalar type `F`.
///
/// The camera keeps a fixed base view, a translation that collects panning and
/// zooming, and a rotation that collects the turns made on the arcball. The
/// view is composed from these three whenever one of them changes, and is
/// stored together with its inverse.
#[verifier::reject_recursive_types(F)]
pub struct ArcballCamera<F> {
    look_at: Matrix4<F>,
    translation: Matrix4<F>,
    rotation: Quaternion<F>,
    camera: Matrix4<F>,
    inv_camera: Matrix4<F>,
    motion_speed: F,
    zoom_speed: F,
    inv_screen: [F; 2],
}

impl<F> ArcballCamera<F> {
    /// The base view the camera was built with.
    pub closed spec fn base_view(&self) -> Matrix4<F> {
        self.look_at
    }

    /// The translation collected from panning and zooming.
    pub closed spec fn translation(&self) -> Matrix4<F> {
        self.translation
    }

    /// The rotation collected from turning the arcball.
    pub closed spec fn rotation(&self) -> Quaternion<F> {
        self.rotation
    }

    /// The current view transform.
    pub closed spec fn view(&self) -> Matrix4<F> {
        self.camera
    }

    /// The inverse of the current view transform.
    pub closed spec fn inverse_view(&self) -> Matrix4<F> {
        self.inv_camera
    }

    /// The factor applied to panning.
    pub closed spec fn motion_speed(&self) -> F {
        self.motion_speed
    }

    /// The factor applied to zooming.
    pub closed spec fn zoom_speed(&self) -> F {
        self.zoom_speed
    }

    /// The reciprocals of the screen's width and height.
    pub closed spec fn inverse_screen(&self) -> [F; 2] {
        self.inv_screen
    }

    /// What is fixed when the camera is built: the base view and the two
    /// speeds are the same in `self` and `other`.
    pub open spec fn same_setup(&self, other: &Self) -> bool {
        &&& self.base_view() == other.base_view()
        &&& self.motion_speed() == other.motion_speed()
        &&& self.zoom_speed() == other.zoom_speed()
    }
}

/// `x` bounded to the range from `low` to `high`: `low` where `x < low`,
/// otherwise `high` where `x > high`, otherwise `x` itself.
pub open spec fn clamped<F: PartialOrd>(x: F, low: F, high: F) -> F {
    if x.is_lt(&low) {
        low
    } else if x.is_gt(&high) {
        high
    } else {
        x
    }
}

/// `r` is a value that `clamp` returned for `x`, `low` and `high`.
pub closed spec fn is_clamped<F: BaseFloat>(x: F, low: F, high: F, r: F) -> bool {
    call_ensures(clamp::<F>, (x, low, high), r)
}

/// A clamped value is the value itself or one of the two bounds, and it is
/// `clamped(x, low, high)` wherever the scalar type's order obeys its
/// specification.
pub proof fn clamped_value_is_value_or_bound<F: BaseFloat>(x: F, low: F, high: F, r: F)
    requires
        is_clamped(x, low, high, r),
    ensures
        r == x || r == low || r == high,
        F::obeys_partial_cmp_spec() ==> r == clamped(x, low, high),
{
}

/// `r` is the outcome of comparing `a <= b`.
pub closed spec fn is_at_most<F: BaseFloat>(a: F, b: F, r: bool) -> bool {
    call_ensures(at_most::<F>, (&a, &b), r)
}

/// `r` is one divided by `x`.
pub closed spec fn reciprocal<F: BaseFloat>(x: F, r: F) -> bool {
    exists|unit: F| is_one(unit) && is_quotient(unit, x, r)
}

/// `unit`, `two` and `low` are one, one plus one, and minus one.
pub closed spec fn ball_constants<F: BaseFloat>(unit: F, two: F, low: F) -> bool {
    is_one(unit) && is_sum(unit, unit, two) && is_negation(unit, low)
}

/// `r` is `(px * two) * inv - unit`, bounded to the range from `low` to `unit`.
pub closed spec fn ball_x<F: BaseFloat>(px: F, inv: F, unit: F, two: F, low: F, r: F) -> bool {
    exists|a: F, b: F, c: F|
        is_product(px, two, a) && is_product(a, inv, b) && is_difference(b, unit, c)
            && is_clamped(c, low, unit, r)
}

/// `r` is `unit - (two * py) * inv`, bounded to the range from `low` to `unit`.
pub closed spec fn ball_y<F: BaseFloat>(py: F, inv: F, unit: F, two: F, low: F, r: F) -> bool {
    exists|a: F, b: F, c: F|
        is_product(two, py, a) && is_product(a, inv, b) && is_difference(unit, b, c)
            && is_clamped(c, low, unit, r)
}

/// `r` is the pointer position `mouse`, given in pixels, in ball space: the
/// first coordinate is `2 x / width - 1`, the second `1 - 2 y / height`, both
/// bounded to the range from -1 to 1. `inv_screen` holds the reciprocals of
/// width and height.
pub closed spec fn ball_space<F: BaseFloat>(
    inv_screen: [F; 2],
    mouse: Vector2<F>,
    r: Vector2<F>,
) -> bool {
    exists|unit: F, two: F, low: F, px: F, py: F, x: F, y: F|
        ball_constants(unit, two, low) && has_coordinates(mouse, (px, py)) && ball_x(
            px,
            inv_screen[0],
            unit,
            two,
            low,
            x,
        ) && ball_y(py, inv_screen[1], unit, two, low, y) && is_vector2(x, y, r)
}

/// `q` is the point `p` of the unit disc lifted onto the sphere: scalar part
/// `null`, the coordinates of `p`, and depth `sqrt(unit - dist)`.
pub closed spec fn lifted<F: BaseFloat>(
    p: Vector2<F>,
    unit: F,
    null: F,
    dist: F,
    q: Quaternion<F>,
) -> bool {
    exists|x: F, y: F, rest: F, depth: F|
        has_coordinates(p, (x, y)) && is_difference(unit, dist, rest) && is_square_root(
            rest,
            depth,
        ) && is_quaternion(null, x, y, depth, q)
}

/// `q` is the point `p` from outside the unit disc pinned to the circle:
/// scalar part `null`, the coordinates of `p` normalised, and depth `null`.
pub closed spec fn pinned<F: BaseFloat>(p: Vector2<F>, null: F, q: Quaternion<F>) -> bool {
    exists|n: Vector2<F>, x: F, y: F|
        is_normalized(p, n) && has_coordinates(n, (x, y)) && is_quaternion(null, x, y, null, q)
}

/// `q` is the sphere point of `p`: with `dist` the dot product of `p` with
/// itself, `p` is lifted where `dist <= 1` and pinned otherwise.
pub closed spec fn on_sphere<F: BaseFloat>(p: Vector2<F>, q: Quaternion<F>) -> bool {
    exists|unit: F, null: F, dist: F, inside: bool|
        is_one(unit) && is_zero(null) && is_dot(p, p, dist) && is_at_most(dist, unit, inside) && (
        if inside {
            lifted(p, unit, null, dist, q)
        } else {
            pinned(p, null, q)
        })
}

/// `after` is the rotation that a drag from `mouse_prev` to `mouse_cur` makes
/// of `before`: with the sphere points of the two positions,
/// `(cur * prev) * before`.
pub closed spec fn turned<F: BaseFloat>(
    inv_screen: [F; 2],
    mouse_prev: Vector2<F>,
    mouse_cur: Vector2<F>,
    before: Quaternion<F>,
    after: Quaternion<F>,
) -> bool {
    exists|
        cur: Vector2<F>,
        prev: Vector2<F>,
        cur_ball: Quaternion<F>,
        prev_ball: Quaternion<F>,
        turn: Quaternion<F>,
    |
        ball_space(inv_screen, mouse_cur, cur) && on_sphere(cur, cur_ball) && ball_space(
            inv_screen,
            mouse_prev,
            prev,
        ) && on_sphere(prev, prev_ball) && is_quaternion_product(cur_ball, prev_ball, turn)
            && is_quaternion_product(turn, before, after)
}

/// `motion` is the vector `((0, 0, amount) * speed) * elapsed`.
pub closed spec fn zoom_motion<F: BaseFloat>(
    amount: F,
    speed: F,
    elapsed: F,
    motion: Vector3<F>,
) -> bool {
    exists|null: F, v: Vector3<F>, w: Vector3<F>|
        is_zero(null) && is_vector3(null, null, amount, v) && is_scaled(v, speed, w) && is_scaled(
            w,
            elapsed,
            motion,
        )
}

/// `motion` is the vector `((dx, dy, 0) * speed) * elapsed`, where `dx` and
/// `dy` are the coordinates of `delta`.
pub closed spec fn pan_motion<F: BaseFloat>(
    delta: Vector2<F>,
    speed: F,
    elapsed: F,
    motion: Vector3<F>,
) -> bool {
    exists|null: F, v: Vector3<F>, w: Vector3<F>|
        is_zero(null) && is_extended(delta, null, v) && is_scaled(v, speed, w) && is_scaled(
            w,
            elapsed,
            motion,
        )
}

/// `after` is the translation by `motion` applied on top of `before`: the
/// product of the translation matrix of `motion` with `before`.
pub closed spec fn moved<F: BaseFloat>(
    motion: Vector3<F>,
    before: Matrix4<F>,
    after: Matrix4<F>,
) -> bool {
    exists|shift: Matrix4<F>|
        is_translation_matrix(motion, shift) && is_matrix_product(shift, before, after)
}

/// `view` is composed as `(translation * base) * matrix(rotation)`.
pub closed spec fn composed<F: BaseFloat>(
    translation: Matrix4<F>,
    base: Matrix4<F>,
    rotation: Quaternion<F>,
    view: Matrix4<F>,
) -> bool {
    exists|placed: Matrix4<F>, turn: Matrix4<F>|
        is_matrix_product(translation, base, placed) && is_rotation_matrix(rotation, turn)
            && is_matrix_product(placed, turn, view)
}

/// `inv` is what inverting `m` gave: an inverse, or `None` where `m` was
/// found singular.
pub closed spec fn inverted<F: BaseFloat>(m: Matrix4<F>, inv: Option<Matrix4<F>>) -> bool {
    is_inverse(m, inv)
}

/// `m` is the identity matrix.
pub closed spec fn no_translation<F: BaseFloat>(m: Matrix4<F>) -> bool {
    is_identity_matrix(m)
}

/// `q` is the quaternion `(1; 0, 0, 0)`.
pub closed spec fn no_rotation<F: BaseFloat>(q: Quaternion<F>) -> bool {
    exists|unit: F, null: F| is_one(unit) && is_zero(null) && is_quaternion(unit, null, null, null, q)
}

/// Compares `a <= b` with the scalar type's own order.
fn at_most<F: PartialOrd>(a: &F, b: &F) -> (r: bool)
    ensures
        F::obeys_partial_cmp_spec() ==> r == a.is_le(b),
{
    *a <= *b
}

/// Bounds `x` to the range from `low` to `high`.
fn clamp<F: PartialOrd>(x: F, low: F, high: F) -> (r: F)
    ensures
        r == x || r == low || r == high,
        F::obeys_partial_cmp_spec() ==> r == clamped(x, low, high),
{
    if x < low {
        low
    } else if x > high {
        high
    } else {
        x
    }
}

impl<F: BaseFloat> ArcballCamera<F> {
    /// The stored view is the one composed from the camera's translation,
    /// base view and rotation, and the stored inverse is what inverting that
    /// view gave.
    pub closed spec fn up_to_date(&self) -> bool {
        composed(self.translation, self.look_at, self.rotation, self.camera) && inverted(
            self.camera,
            Some(self.inv_camera),
        )
    }

    /// Puts a camera together from its parts. The camera exists exactly when
    /// an inverse of the view is at hand.
    fn assemble(
        look_at: Matrix4<F>,
        translation: Matrix4<F>,
        rotation: Quaternion<F>,
        inverse_view: Option<Matrix4<F>>,
        motion_speed: F,
        zoom_speed: F,
        inv_screen: [F; 2],
    ) -> (r: Result<Self, CameraError>)
        ensures
            match (inverse_view, r) {
                (Some(inv), Ok(camera)) => {
                    &&& camera.base_view() == look_at
                    &&& camera.translation() == translation
                    &&& camera.rotation() == rotation
                    &&& camera.view() == look_at
                    &&& camera.inverse_view() == inv
                    &&& camera.motion_speed() == motion_speed
                    &&& camera.zoom_speed() == zoom_speed
                    &&& camera.inverse_screen() == inv_screen
                },
                (None, Err(e)) => e == CameraError::SingularView,
                _ => false,
            },
    {
        match inverse_view {
            Some(inv_camera) => Ok(
                ArcballCamera {
                    look_at,
                    translation,
                    rotation,
                    camera: look_at,
                    inv_camera,
                    motion_speed,
                    zoom_speed,
                    inv_screen,
                },
            ),
            None => Err(CameraError::SingularView),
        }
    }

    /// Creates a camera whose view is `look_at`, with no translation and no
    /// rotation yet. `motion_speed` scales panning, `zoom_speed` scales
    /// zooming, and `screen` is the width and height of the screen in pixels.
    ///
    /// Succeeds exactly when inverting `look_at` gives an inverse, which the
    /// camera then holds; fails with `SingularView` when it gives none.
    pub fn new(look_at: &Matrix4<F>, motion_speed: F, zoom_speed: F, screen: [F; 2]) -> (r: Result<
        Self,
        CameraError,
    >)
        ensures
            match r {
                Ok(camera) => {
                    &&& camera.view() == *look_at
                    &&& camera.base_view() == *look_at
                    &&& camera.motion_speed() == motion_speed
                    &&& camera.zoom_speed() == zoom_speed
                    &&& no_translation(camera.translation())
                    &&& no_rotation(camera.rotation())
                    &&& inverted(*look_at, Some(camera.inverse_view()))
                    &&& reciprocal(screen[0], camera.inverse_screen()[0])
                    &&& reciprocal(screen[1], camera.inverse_screen()[1])
                },
                Err(e) => e == CameraError::SingularView && inverted(*look_at, None),
            },
    {
        let unit = one::<F>();
        let null = zero::<F>();
        let inv_width = quotient(unit, screen[0]);
        let inv_height = quotient(unit, screen[1]);
        let translation = identity_matrix();
        let rotation = quaternion(unit, null, null, null);
        let inverse_view = inverse(look_at);
        proof {
            assert(is_one(unit) && is_quotient(unit, screen[0], inv_width));
            assert(is_one(unit) && is_quotient(unit, screen[1], inv_height));
            assert(is_one(unit) && is_zero(null) && is_quaternion(unit, null, null, null, rotation));
            assert(is_identity_matrix(translation));
            assert(is_inverse(*look_at, inverse_view));
        }
        Self::assemble(
            *look_at,
            translation,
            rotation,
            inverse_view,
            motion_speed,
            zoom_speed,
            [inv_width, inv_height],
        )
    }

    /// The view transform of the camera.
    pub fn get_mat4(&self) -> (r: Matrix4<F>)
        ensures
            r == self.view(),
    {
        self.camera
    }

    /// Takes over a new translation and rotation together with the view
    /// composed from them, provided an inverse of that view is at hand.
    /// Without one the camera stays as it was.
    fn install(
        &mut self,
        translation: Matrix4<F>,
        rotation: Quaternion<F>,
        view: Matrix4<F>,
        inverse_view: Option<Matrix4<F>>,
    ) -> (r: Result<(), CameraError>)
        ensures
            match inverse_view {
                Some(inv) => {
                    &&& r == Ok::<(), CameraError>(())
                    &&& final(self).translation() == translation
                    &&& final(self).rotation() == rotation
                    &&& final(self).view() == view
                    &&& final(self).inverse_view() == inv
                    &&& final(self).same_setup(old(self))
                    &&& final(self).inverse_screen() == old(self).inverse_screen()
                },
                None => {
                    &&& r == Err::<(), CameraError>(CameraError::SingularView)
                    &&& *final(self) == *old(self)
                },
            },
    {
        match inverse_view {
            Some(inv_camera) => {
                self.translation = translation;
                self.rotation = rotation;
                self.camera = view;
                self.inv_camera = inv_camera;
                Ok(())
            },
            None => Err(CameraError::SingularView),
        }
    }

    /// The view composed from `translation`, `base` and `rotation` was found
    /// singular when it was inverted.
    pub closed spec fn singular(
        translation: Matrix4<F>,
        base: Matrix4<F>,
        rotation: Quaternion<F>,
    ) -> bool {
        exists|view: Matrix4<F>|
            composed(translation, base, rotation, view) && inverted(view, None)
    }

    /// Composes the view for a new translation and rotation as
    /// translation, then base view, then rotation, and inverts it. With an
    /// inverse the camera takes all of it over; without one it stays as it
    /// was.
    fn recompose(&mut self, translation: Matrix4<F>, rotation: Quaternion<F>) -> (r: Result<
        (),
        CameraError,
    >)
        ensures
            match r {
                Ok(_) => {
                    &&& final(self).translation() == translation
                    &&& final(self).rotation() == rotation
                    &&& final(self).up_to_date()
                    &&& final(self).same_setup(old(self))
                    &&& final(self).inverse_screen() == old(self).inverse_screen()
                },
                Err(e) => {
                    &&& e == CameraError::SingularView
                    &&& *final(self) == *old(self)
                    &&& Self::singular(translation, old(self).base_view(), rotation)
                },
            },
    {
        let placed = matrix_product(&translation, &self.look_at);
        let turn = rotation_matrix(&rotation);
        let view = matrix_product(&placed, &turn);
        let inverse_view = inverse(&view);
        proof {
            assert(is_matrix_product(translation, self.look_at, placed) && is_rotation_matrix(
                rotation,
                turn,
            ) && is_matrix_product(placed, turn, view));
            assert(composed(translation, self.look_at, rotation, view));
            assert(inverted(view, inverse_view));
        }
        self.install(translation, rotation, view, inverse_view)
    }

    /// Maps a pointer position in pixels into the square from -1 to 1 on both
    /// axes, with the second axis pointing up.
    fn to_ball_space(&self, mouse: &Vector2<F>) -> (r: Vector2<F>)
        ensures
            ball_space(self.inverse_screen(), *mouse, r),
    {
        let unit = one::<F>();
        let two = sum(unit, unit);
        let low = negated(unit);
        let (px, py) = coordinates(mouse);
        let ax = product(px, two);
        let bx = product(ax, self.inv_screen[0]);
        let cx = difference(bx, unit);
        let x = clamp(cx, low, unit);
        let ay = product(two, py);
        let by = product(ay, self.inv_screen[1]);
        let cy = difference(unit, by);
        let y = clamp(cy, low, unit);
        let r = vector2(x, y);
        proof {
            assert(ball_constants(unit, two, low));
            assert(is_product(px, two, ax) && is_product(ax, self.inv_screen[0], bx)
                && is_difference(bx, unit, cx) && is_clamped(cx, low, unit, x));
            assert(ball_x(px, self.inv_screen[0], unit, two, low, x));
            assert(is_product(two, py, ay) && is_product(ay, self.inv_screen[1], by)
                && is_difference(unit, by, cy) && is_clamped(cy, low, unit, y));
            assert(ball_y(py, self.inv_screen[1], unit, two, low, y));
            assert(has_coordinates(*mouse, (px, py)) && is_vector2(x, y, r));
        }
        r
    }

    /// Lifts a point of the square onto the unit sphere. A point within the
    /// unit circle keeps its two coordinates and gets the matching depth; a
    /// point outside is pulled onto the circle and gets depth zero. The sphere
    /// point is returned as a quaternion with scalar part zero.
    fn screen_to_arcball(p: Vector2<F>) -> (r: Quaternion<F>)
        ensures
            on_sphere(p, r),
    {
        let unit = one::<F>();
        let null = zero::<F>();
        let dist = dot(&p, &p);
        let inside = at_most(&dist, &unit);
        proof {
            assert(is_one(unit) && is_zero(null) && is_dot(p, p, dist) && is_at_most(
                dist,
                unit,
                inside,
            ));
        }
        if inside {
            let (x, y) = coordinates(&p);
            let rest = difference(unit, dist);
            let depth = square_root(rest);
            let r = quaternion(null, x, y, depth);
            proof {
                assert(has_coordinates(p, (x, y)) && is_difference(unit, dist, rest)
                    && is_square_root(rest, depth) && is_quaternion(null, x, y, depth, r));
                assert(lifted(p, unit, null, dist, r));
            }
            r
        } else {
            let n = normalized(&p);
            let (x, y) = coordinates(&n);
            let r = quaternion(null, x, y, null);
            proof {
                assert(is_normalized(p, n) && has_coordinates(n, (x, y)) && is_quaternion(
                    null,
                    x,
                    y,
                    null,
                    r,
                ));
                assert(pinned(p, null, r));
            }
            r
        }
    }

    /// The view that a drag from `mouse_prev` to `mouse_cur` leads to from
    /// this camera was found singular.
    pub closed spec fn turn_refused(&self, mouse_prev: Vector2<F>, mouse_cur: Vector2<F>) -> bool {
        exists|rotation: Quaternion<F>|
            turned(self.inv_screen, mouse_prev, mouse_cur, self.rotation, rotation)
                && Self::singular(self.translation, self.look_at, rotation)
    }

    /// Turns the camera as the pointer moves from `mouse_prev` to `mouse_cur`,
    /// both in pixels.
    ///
    /// The new rotation is the turn between the sphere points of the two
    /// positions, applied on the left of the rotation so far. The view is
    /// composed anew; the translation and everything fixed at construction
    /// stay as they are. Fails with `SingularView`, leaving the camera
    /// untouched, when the view after the turn was found singular.
    pub fn rotate(&mut self, mouse_prev: Vector2<F>, mouse_cur: Vector2<F>) -> (r: Result<
        (),
        CameraError,
    >)
        ensures
            match r {
                Ok(_) => {
                    &&& turned(
                        old(self).inverse_screen(),
                        mouse_prev,
                        mouse_cur,
                        old(self).rotation(),
                        final(self).rotation(),
                    )
                    &&& final(self).translation() == old(self).translation()
                    &&& final(self).up_to_date()
                    &&& final(self).same_setup(old(self))
                    &&& final(self).inverse_screen() == old(self).inverse_screen()
                },
                Err(e) => {
                    &&& e == CameraError::SingularView
                    &&& *final(self) == *old(self)
                    &&& old(self).turn_refused(mouse_prev, mouse_cur)
                },
            },
    {
        let cur = self.to_ball_space(&mouse_cur);
        let cur_ball = Self::screen_to_arcball(cur);
        let prev = self.to_ball_space(&mouse_prev);
        let prev_ball = Self::screen_to_arcball(prev);
        let turn = quaternion_product(&cur_ball, &prev_ball);
        let rotation = quaternion_product(&turn, &self.rotation);
        proof {
            assert(ball_space(self.inv_screen, mouse_cur, cur) && on_sphere(cur, cur_ball)
                && ball_space(self.inv_screen, mouse_prev, prev) && on_sphere(prev, prev_ball)
                && is_quaternion_product(cur_ball, prev_ball, turn) && is_quaternion_product(
                turn,
                self.rotation,
                rotation,
            ));
            assert(turned(self.inv_screen, mouse_prev, mouse_cur, self.rotation, rotation));
        }
        let ghost before = *self;
        let r = self.recompose(self.translation, rotation);
        proof {
            if r.is_err() {
                assert(turned(
                    before.inv_screen,
                    mouse_prev,
                    mouse_cur,
                    before.rotation,
                    rotation,
                ) && Self::singular(before.translation, before.look_at, rotation));
                assert(before.turn_refused(mouse_prev, mouse_cur));
            }
        }
        r
    }

    /// `after` is the translation that zooming by `amount` for `elapsed` at
    /// the given speed makes of `before`.
    pub closed spec fn zoomed(
        amount: F,
        speed: F,
        elapsed: F,
        before: Matrix4<F>,
        after: Matrix4<F>,
    ) -> bool {
        exists|motion: Vector3<F>|
            zoom_motion(amount, speed, elapsed, motion) && moved(motion, before, after)
    }

    /// `after` is the translation that panning by `delta` for `elapsed` at
    /// the given speed makes of `before`.
    pub closed spec fn panned(
        delta: Vector2<F>,
        speed: F,
        elapsed: F,
        before: Matrix4<F>,
        after: Matrix4<F>,
    ) -> bool {
        exists|motion: Vector3<F>|
            pan_motion(delta, speed, elapsed, motion) && moved(motion, before, after)
    }

    /// The view that zooming by `amount` for `elapsed` leads to from this
    /// camera was found singular.
    pub closed spec fn zoom_refused(&self, amount: F, elapsed: F) -> bool {
        exists|translation: Matrix4<F>|
            Self::zoomed(amount, self.zoom_speed, elapsed, self.translation, translation)
                && Self::singular(translation, self.look_at, self.rotation)
    }

    /// Moves the camera along its own depth axis by `amount`, scaled by the
    /// zoom speed and by `elapsed`. Positive amounts zoom in.
    ///
    /// The move is put in front of the translation so far and the view is
    /// composed anew; the rotation and everything fixed at construction stay
    /// as they are. Fails with `SingularView`, leaving the camera untouched,
    /// when the view after the move was found singular.
    pub fn zoom(&mut self, amount: F, elapsed: F) -> (r: Result<(), CameraError>)
        ensures
            match r {
                Ok(_) => {
                    &&& Self::zoomed(
                        amount,
                        old(self).zoom_speed(),
                        elapsed,
                        old(self).translation(),
                        final(self).translation(),
                    )
                    &&& final(self).rotation() == old(self).rotation()
                    &&& final(self).up_to_date()
                    &&& final(self).same_setup(old(self))
                    &&& final(self).inverse_screen() == old(self).inverse_screen()
                },
                Err(e) => {
                    &&& e == CameraError::SingularView
                    &&& *final(self) == *old(self)
                    &&& old(self).zoom_refused(amount, elapsed)
                },
            },
    {
        let null = zero::<F>();
        let v = vector3(null, null, amount);
        let w = scaled(&v, self.zoom_speed);
        let motion = scaled(&w, elapsed);
        let shift = translation_matrix(&motion);
        let translation = matrix_product(&shift, &self.translation);
        proof {
            assert(is_zero(null) && is_vector3(null, null, amount, v) && is_scaled(
                v,
                self.zoom_speed,
                w,
            ) && is_scaled(w, elapsed, motion));
            assert(zoom_motion(amount, self.zoom_speed, elapsed, motion));
            assert(is_translation_matrix(motion, shift) && is_matrix_product(
                shift,
                self.translation,
                translation,
            ));
            assert(moved(motion, self.translation, translation));
            assert(Self::zoomed(amount, self.zoom_speed, elapsed, self.translation, translation));
        }
        let ghost before = *self;
        let r = self.recompose(translation, self.rotation);
        proof {
            if r.is_err() {
                assert(Self::zoomed(
                    amount,
                    before.zoom_speed,
                    elapsed,
                    before.translation,
                    translation,
                ) && Self::singular(translation, before.look_at, before.rotation));
                assert(before.zoom_refused(amount, elapsed));
            }
        }
        r
    }

    /// The view that panning by `delta` for `elapsed` leads to from this
    /// camera was found singular.
    pub closed spec fn pan_refused(&self, delta: Vector2<F>, elapsed: F) -> bool {
        exists|translation: Matrix4<F>|
            Self::panned(delta, self.motion_speed, elapsed, self.translation, translation)
                && Self::singular(translation, self.look_at, self.rotation)
    }

    /// Moves the camera within its own image plane by `mouse_delta`, given in
    /// pixels and scaled by the motion speed and by `elapsed`.
    ///
    /// The move is put in front of the translation so far and the view is
    /// composed anew; the rotation and everything fixed at construction stay
    /// as they are. Fails with `SingularView`, leaving the camera untouched,
    /// when the view after the move was found singular.
    pub fn pan(&mut self, mouse_delta: Vector2<F>, elapsed: F) -> (r: Result<(), CameraError>)
        ensures
            match r {
                Ok(_) => {
                    &&& Self::panned(
                        mouse_delta,
                        old(self).motion_speed(),
                        elapsed,
                        old(self).translation(),
                        final(self).translation(),
                    )
                    &&& final(self).rotation() == old(self).rotation()
                    &&& final(self).up_to_date()
                    &&& final(self).same_setup(old(self))
                    &&& final(self).inverse_screen() == old(self).inverse_screen()
                },
                Err(e) => {
                    &&& e == CameraError::SingularView
                    &&& *final(self) == *old(self)
                    &&& old(self).pan_refused(mouse_delta, elapsed)
                },
            },
    {
        let null = zero::<F>();
        let v = extended(&mouse_delta, null);
        let w = scaled(&v, self.motion_speed);
        let motion = scaled(&w, elapsed);
        let shift = translation_matrix(&motion);
        let translation = matrix_product(&shift, &self.translation);
        proof {
            assert(is_zero(null) && is_extended(mouse_delta, null, v) && is_scaled(
                v,
                self.motion_speed,
                w,
            ) && is_scaled(w, elapsed, motion));
            assert(pan_motion(mouse_delta, self.motion_speed, elapsed, motion));
            assert(is_translation_matrix(motion, shift) && is_matrix_product(
                shift,
                self.translation,
                translation,
            ));
            assert(moved(motion, self.translation, translation));
            assert(Self::panned(
                mouse_delta,
                self.motion_speed,
                elapsed,
                self.translation,
                translation,
            ));
        }
        let ghost before = *self;
        let r = self.recompose(translation, self.rotation);
        proof {
            if r.is_err() {
                assert(Self::panned(
                    mouse_delta,
                    before.motion_speed,
                    elapsed,
                    before.translation,
                    translation,
                ) && Self::singular(translation, before.look_at, before.rotation));
                assert(before.pan_refused(mouse_delta, elapsed));
            }
        }
        r
    }

    /// Tells the camera the new width and height of the screen in pixels.
    ///
    /// The camera stores the reciprocals of the two. Nothing else changes:
    /// the view and all that it is composed from stay as they are.
    pub fn update_screen(&mut self, width: F, height: F)
        ensures
            reciprocal(width, final(self).inverse_screen()[0]),
            reciprocal(height, final(self).inverse_screen()[1]),
            final(self).view() == old(self).view(),
            final(self).inverse_view() == old(self).inverse_view(),
            final(self).translation() == old(self).translation(),
            final(self).rotation() == old(self).rotation(),
            final(self).same_setup(old(self)),
    {
        let unit = one::<F>();
        let inv_width = quotient(unit, width);
        let inv_height = quotient(unit, height);
        proof {
            assert(is_one(unit) && is_quotient(unit, width, inv_width));
            assert(is_one(unit) && is_quotient(unit, height, inv_height));
        }
        self.inv_screen = [inv_width, inv_height];
    }
}

} // verus!
