//! The bouncing-ball state machine on concrete values: the shift
//! register, the wall clamping, and the interior glide.

use xous_ipc::bounce::{Bounce, move_lfsr};
use xous_ipc::geometry::{Point, Rectangle};

#[test]
fn lfsr_steps_from_the_seed() {
    assert_eq!(move_lfsr(0xace1), 0x015b_d766);
    assert_eq!(move_lfsr(0x015b_d766), 0xb39d_6c0f);
}

#[test]
fn new_ball_starts_at_half_the_extent() {
    let b = Bounce::new(14, Rectangle::new(Point::new(0, 378), Point::new(336, 535)));
    assert_eq!(b.radius(), 14);
    assert_eq!(b.ball_center(), Point::new(168, 78));
    assert_eq!(b.bounds().tl, Point::new(0, 378));
    assert_eq!(b.bounds().br, Point::new(336, 535));
}

#[test]
fn update_clamps_to_the_near_wall() {
    // The fresh ball sits above the box, so the first step clamps it to
    // the top wall: x glides by the initial vector, y lands on the wall.
    let mut b = Bounce::new(14, Rectangle::new(Point::new(0, 378), Point::new(336, 535)));
    b.update();
    assert_eq!(b.ball_center(), Point::new(170, 392));
}

#[test]
fn update_glides_in_the_interior() {
    let mut b = Bounce::new(1, Rectangle::new(Point::new(0, 0), Point::new(100, 100)));
    assert_eq!(b.ball_center(), Point::new(50, 50));
    b.update();
    assert_eq!(b.ball_center(), Point::new(52, 53));
    b.update();
    assert_eq!(b.ball_center(), Point::new(54, 56));
}

#[test]
fn ball_stays_inside_its_bounds() {
    let mut b = Bounce::new(14, Rectangle::new(Point::new(0, 378), Point::new(336, 535)));
    for _ in 0..10_000 {
        b.update();
        let c = b.ball_center();
        let r = b.radius() as i16;
        let bounds = b.bounds();
        assert!(bounds.tl.x + r <= c.x && c.x <= bounds.br.x - r);
        assert!(bounds.tl.y + r <= c.y && c.y <= bounds.br.y - r);
    }
}
