//! The bouncing-ball demonstration state: a ball position, a velocity
//! vector, and a linear-feedback shift register that picks a fresh speed
//! whenever the ball meets a wall. Every step keeps the ball inside its
//! bounds, radius included, and all the coordinate arithmetic within the
//! signed sixteen-bit range.

use vstd::prelude::*;
use crate::geometry::{Point, Rectangle};

verus! {

/// One step of the linear-feedback shift register driving the ball's
/// speed changes.
pub open spec fn lfsr_next(l: u32) -> u32 {
    let a = l ^ (l >> 7);
    let b = a ^ (a << 9);
    b ^ (b >> 13)
}

/// The speed drawn from one register step: the stepped register, tripled
/// with wraparound, reduced modulo twelve.
pub open spec fn rand_of(l: u32) -> i16 {
    (vstd::wrapping::u32_specs::wrapping_mul(lfsr_next(l), 3) % 12) as i16
}

/// Advance the shift register by one step.
pub fn move_lfsr(lfsr: u32) -> (r: u32)
    ensures
        r == lfsr_next(lfsr),
{
    let mut l = lfsr;
    l = l ^ (l >> 7);
    l = l ^ (l << 9);
    l = l ^ (l >> 13);
    l
}

/// Whether a tentative coordinate has met a wall of the corridor from
/// `lo` to `hi`: the step only bounces when some coordinate has.
pub open spec fn meets_wall(v0: int, lo: int, hi: int) -> bool {
    v0 >= hi || v0 <= lo
}

/// Where one coordinate of a bouncing step lands: clamped onto whichever
/// wall it has reached or almost reached, and kept as it is otherwise.
pub open spec fn step_coord(v0: int, lo: int, hi: int) -> int {
    if v0 >= hi - 1 {
        hi
    } else if v0 <= lo + 1 {
        lo
    } else {
        v0
    }
}

/// A ball bouncing inside a rectangle.
pub struct Bounce {
    vector: Point,
    radius: u16,
    bounds: Rectangle,
    loc: Point,
    lfsr: u32,
}

impl Bounce {
    /// The state is kept where every step's arithmetic stays in range:
    /// the radius and the bounds are moderate, the bounds leave room for
    /// the ball, and the position and velocity are bounded.
    #[verifier::type_invariant]
    spec fn type_inv(self) -> bool {
        &&& 1 <= self.radius <= 4096
        &&& -12288 <= self.bounds.tl.x <= 12288
        &&& -12288 <= self.bounds.tl.y <= 12288
        &&& -12288 <= self.bounds.br.x <= 12288
        &&& -12288 <= self.bounds.br.y <= 12288
        &&& self.bounds.tl.x + 2 * (self.radius + 1) <= self.bounds.br.x
        &&& self.bounds.tl.y + 2 * (self.radius + 1) <= self.bounds.br.y
        &&& -16384 <= self.loc.x <= 16384
        &&& -16384 <= self.loc.y <= 16384
        &&& -12 <= self.vector.x <= 12
        &&& -12 <= self.vector.y <= 12
    }

    /// The ball's position.
    pub closed spec fn spec_loc(self) -> Point {
        self.loc
    }

    /// The ball's velocity.
    pub closed spec fn spec_vector(self) -> Point {
        self.vector
    }

    /// The ball's radius.
    pub closed spec fn spec_radius(self) -> u16 {
        self.radius
    }

    /// The rectangle the ball bounces in.
    pub closed spec fn spec_bounds(self) -> Rectangle {
        self.bounds
    }

    /// The shift register driving speed changes.
    pub closed spec fn spec_lfsr(self) -> u32 {
        self.lfsr
    }

    /// A fresh ball: placed at half the bounds' extent, moving two right
    /// and three down, with the seed the register starts from. The bounds
    /// must be moderate and leave room for the ball, so that every later
    /// step stays within the signed sixteen-bit range.
    pub fn new(radius: u16, bounds: Rectangle) -> (b: Bounce)
        requires
            1 <= radius <= 4096,
            -12288 <= bounds.tl.x <= 12288,
            -12288 <= bounds.tl.y <= 12288,
            -12288 <= bounds.br.x <= 12288,
            -12288 <= bounds.br.y <= 12288,
            bounds.tl.x + 2 * (radius + 1) <= bounds.br.x,
            bounds.tl.y + 2 * (radius + 1) <= bounds.br.y,
        ensures
            b.spec_radius() == radius,
            b.spec_bounds() == bounds,
            b.spec_vector() == (Point { x: 2i16, y: 3i16 }),
            b.spec_loc().x == (bounds.br.x - bounds.tl.x) / 2,
            b.spec_loc().y == (bounds.br.y - bounds.tl.y) / 2,
            b.spec_lfsr() == 0xace1u32,
    {
        Bounce {
            vector: Point::new(2, 3),
            radius,
            bounds,
            loc: Point::new(
                (bounds.br.x - bounds.tl.x) / 2,
                (bounds.br.y - bounds.tl.y) / 2,
            ),
            lfsr: 0xace1u32,
        }
    }

    /// The ball's position.
    pub fn ball_center(&self) -> (r: Point)
        ensures
            r == self.spec_loc(),
    {
        self.loc
    }

    /// The ball's radius.
    pub fn radius(&self) -> (r: u16)
        ensures
            r == self.spec_radius(),
    {
        self.radius
    }

    /// The rectangle the ball bounces in.
    pub fn bounds(&self) -> (r: Rectangle)
        ensures
            r == self.spec_bounds(),
    {
        self.bounds
    }

    /// Draw the next speed: step the register, and reduce the tripled
    /// step modulo twelve. Only the register changes.
    pub fn next_rand(&mut self) -> (r: i16)
        ensures
            final(self).spec_lfsr() == lfsr_next(old(self).spec_lfsr()),
            final(self).spec_loc() == old(self).spec_loc(),
            final(self).spec_vector() == old(self).spec_vector(),
            final(self).spec_radius() == old(self).spec_radius(),
            final(self).spec_bounds() == old(self).spec_bounds(),
            r == rand_of(old(self).spec_lfsr()),
            0 <= r <= 11,
    {
        proof {
            use_type_invariant(&*self);
        }
        let mut ret = move_lfsr(self.lfsr);
        self.lfsr = ret;
        ret = ret.wrapping_mul(3);
        (ret % 12) as i16
    }

    /// Advance the ball one step: move it by its velocity; once any
    /// coordinate meets a wall, every coordinate at or next to a wall is
    /// clamped onto it, radius included, and its velocity component is
    /// pointed inward at a freshly drawn speed. The position is pinned
    /// exactly: the moved point when no wall is met, the wall-clamped
    /// point otherwise; the ball ends the step inside the bounds with the
    /// radius respected, and while no wall is met the velocity and the
    /// register are untouched.
    pub fn update(&mut self)
        ensures
            final(self).spec_radius() == old(self).spec_radius(),
            final(self).spec_bounds() == old(self).spec_bounds(),
            final(self).spec_bounds().tl.x + final(self).spec_radius()
                <= final(self).spec_loc().x
                <= final(self).spec_bounds().br.x - final(self).spec_radius(),
            final(self).spec_bounds().tl.y + final(self).spec_radius()
                <= final(self).spec_loc().y
                <= final(self).spec_bounds().br.y - final(self).spec_radius(),
            ({
                let x0 = old(self).spec_loc().x + old(self).spec_vector().x;
                let y0 = old(self).spec_loc().y + old(self).spec_vector().y;
                let b = old(self).spec_bounds();
                let r = old(self).spec_radius();
                let lox = b.tl.x + r;
                let hix = b.br.x - r;
                let loy = b.tl.y + r;
                let hiy = b.br.y - r;
                if meets_wall(x0, lox, hix) || meets_wall(y0, loy, hiy) {
                    &&& final(self).spec_loc().x == step_coord(x0, lox, hix)
                    &&& final(self).spec_loc().y == step_coord(y0, loy, hiy)
                } else {
                    &&& final(self).spec_loc().x == x0
                    &&& final(self).spec_loc().y == y0
                    &&& final(self).spec_vector() == old(self).spec_vector()
                    &&& final(self).spec_lfsr() == old(self).spec_lfsr()
                }
            }),
    {
        proof {
            use_type_invariant(&*self);
        }
        let mut x: i16 = self.loc.x + self.vector.x;
        let mut y: i16 = self.loc.y + self.vector.y;

        let r: i16 = self.radius as i16;
        if (x >= self.bounds.br.x - r)
            || (x <= self.bounds.tl.x + r)
            || (y >= self.bounds.br.y - r)
            || (y <= self.bounds.tl.y + r)
        {
            if x >= self.bounds.br.x - r - 1 {
                let d = self.next_rand();
                self.vector.x = -d;
                x = self.bounds.br.x - r;
            }
            if x <= self.bounds.tl.x + r + 1 {
                let d = self.next_rand();
                self.vector.x = d;
                x = self.bounds.tl.x + r;
            }
            if y >= self.bounds.br.y - r - 1 {
                let d = self.next_rand();
                self.vector.y = -d;
                y = self.bounds.br.y - r;
            }
            if y <= self.bounds.tl.y + r + 1 {
                let d = self.next_rand();
                self.vector.y = d;
                y = self.bounds.tl.y + r;
            }
        }

        self.loc.x = x;
        self.loc.y = y;
    }
}

} // verus!
