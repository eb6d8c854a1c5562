//! The drawing-server operation table on concrete values: each identifier
//! decodes to its operation, each operation encodes to its message, and
//! the word-payload operations round trip.

use xous_ipc::geometry::{Circle, DrawStyle, Line, PixelColor, Point, Rectangle};
use xous_ipc::message::{MemoryMessage, Message, ScalarMessage};
use xous_ipc::opcode::{Opcode, TextClip, TextCursor};

fn scalar(id: usize, a1: usize, a2: usize, a3: usize, a4: usize) -> Message {
    Message::Scalar(ScalarMessage::from_usize(id, a1, a2, a3, a4))
}

fn blocking(id: usize) -> Message {
    Message::BlockingScalar(ScalarMessage::from_usize(id, 0, 0, 0, 0))
}

#[test]
fn plain_requests_round_trip() {
    let ops = [
        Opcode::Flush,
        Opcode::Clear,
        Opcode::SetGlyphStyle(2),
        Opcode::SetCursor(TextCursor { x: 4, y: 18, line_height: 15 }),
        Opcode::GetCursor,
        Opcode::SetStringClipping(TextClip { min_x: 4, min_y: 0, max_x: 336, max_y: 14 }),
        Opcode::ScreenSize,
        Opcode::QueryGlyphStyle,
    ];
    for op in ops {
        let expected = match &op {
            Opcode::Flush => Opcode::Flush,
            Opcode::Clear => Opcode::Clear,
            Opcode::SetGlyphStyle(g) => Opcode::SetGlyphStyle(*g),
            Opcode::SetCursor(c) => Opcode::SetCursor(*c),
            Opcode::GetCursor => Opcode::GetCursor,
            Opcode::SetStringClipping(c) => Opcode::SetStringClipping(*c),
            Opcode::ScreenSize => Opcode::ScreenSize,
            Opcode::QueryGlyphStyle => Opcode::QueryGlyphStyle,
            other => panic!("unexpected operation {:?}", other),
        };
        let m: Message = op.into();
        assert_eq!(Opcode::try_from(&m).unwrap(), expected);
    }
}

#[test]
fn identifiers_follow_the_table() {
    assert_eq!(Opcode::try_from(&scalar(1, 0, 0, 0, 0)).unwrap(), Opcode::Flush);
    assert_eq!(Opcode::try_from(&scalar(2, 0, 0, 0, 0)).unwrap(), Opcode::Clear);
    assert_eq!(
        Opcode::try_from(&scalar(9, 3, 0, 0, 0)).unwrap(),
        Opcode::SetGlyphStyle(3),
    );
    assert_eq!(
        Opcode::try_from(&scalar(12, 10, 20, 15, 0)).unwrap(),
        Opcode::SetCursor(TextCursor { x: 10, y: 20, line_height: 15 }),
    );
    assert_eq!(
        Opcode::try_from(&scalar(11, 1, 2, 3, 4)).unwrap(),
        Opcode::SetStringClipping(TextClip { min_x: 1, min_y: 2, max_x: 3, max_y: 4 }),
    );
    assert_eq!(Opcode::try_from(&blocking(8)).unwrap(), Opcode::ScreenSize);
    assert_eq!(Opcode::try_from(&blocking(10)).unwrap(), Opcode::QueryGlyphStyle);
    assert_eq!(Opcode::try_from(&blocking(13)).unwrap(), Opcode::GetCursor);
}

#[test]
fn unknown_identifiers_and_shapes_are_rejected() {
    assert!(Opcode::try_from(&scalar(99, 0, 0, 0, 0)).is_err());
    assert!(Opcode::try_from(&blocking(99)).is_err());
    let mm = MemoryMessage::from_usize(2, 0x1000, 0x100, 0, 0).unwrap();
    assert!(Opcode::try_from(&Message::MutableBorrow(mm)).is_err());
    let mm = MemoryMessage::from_usize(2, 0x1000, 0x100, 0, 0).unwrap();
    assert!(Opcode::try_from(&Message::Borrow(mm)).is_err());
    let mm = MemoryMessage::from_usize(1, 0x1000, 0x100, 0, 0).unwrap();
    assert!(Opcode::try_from(&Message::Move(mm)).is_err());
}

#[test]
fn line_encodes_packed_geometry() {
    let style = DrawStyle::new(PixelColor::Dark, PixelColor::Dark, 1);
    let line = Opcode::Line(Line::new_with_style(
        Point::new(1, 2),
        Point::new(3, 4),
        style,
    ));
    let m: Message = line.into();
    assert_eq!(
        m,
        scalar(3, 0x0001_0002, 0x0003_0004, 0x1_000a, 0),
    );
}

#[test]
fn rectangle_decodes_normalized() {
    // Corners arrive swapped; the decoded rectangle is normalized.
    let m = scalar(4, 0x0008_0009, 0x0002_0001, 0x1_000a, 0);
    match Opcode::try_from(&m).unwrap() {
        Opcode::Rectangle(r) => {
            assert_eq!(r.tl, Point::new(2, 1));
            assert_eq!(r.br, Point::new(8, 9));
            assert_eq!(r.style.stroke_width, 1);
        }
        other => panic!("expected a rectangle, got {:?}", other),
    }
}

#[test]
fn circle_carries_its_radius_word() {
    let style = DrawStyle::new(PixelColor::Dark, PixelColor::Dark, 1);
    let m: Message = Opcode::Circle(Circle::new_with_style(Point::new(50, 60), 14, style)).into();
    assert_eq!(m, scalar(5, 0x0032_003c, 14, 0x1_000a, 0));
    match Opcode::try_from(&m).unwrap() {
        Opcode::Circle(c) => {
            assert_eq!(c.center, Point::new(50, 60));
            assert_eq!(c.radius, 14);
        }
        other => panic!("expected a circle, got {:?}", other),
    }
}

#[test]
fn text_travels_as_a_borrow_under_identifier_one() {
    let mm = MemoryMessage::from_usize(1, 0x5000, 64, 0, 12).unwrap();
    let m: Message = Opcode::Text(mm).into();
    match &m {
        Message::Borrow(b) => {
            assert_eq!(b.id, 1);
            assert_eq!(b.buf.as_ptr(), 0x5000);
            assert_eq!(b.valid.map(|v| v.get()), Some(12));
        }
        other => panic!("expected a borrow, got {:?}", other),
    }
    match Opcode::try_from(&m).unwrap() {
        Opcode::Text(back) => {
            assert_eq!(back, MemoryMessage::from_usize(1, 0x5000, 64, 0, 12).unwrap());
        }
        other => panic!("expected text, got {:?}", other),
    }
}

#[test]
fn geometry_opcodes_cycle_with_reread_style() {
    let style = DrawStyle::new(PixelColor::Dark, PixelColor::Dark, 1);
    let m: Message = Opcode::Line(Line::new_with_style(
        Point::new(-3, 4),
        Point::new(5, -6),
        style,
    ))
    .into();
    match Opcode::try_from(&m).unwrap() {
        Opcode::Line(l) => {
            assert_eq!(l.start, Point::new(-3, 4));
            assert_eq!(l.end, Point::new(5, -6));
            assert_eq!(l.style.stroke_width, 1);
            assert_eq!(l.style.fill_color, Some(PixelColor::Light));
            assert_eq!(l.style.stroke_color, Some(PixelColor::Light));
        }
        other => panic!("expected a line, got {:?}", other),
    }

    let m: Message = Opcode::Rectangle(Rectangle::new_with_style(
        Point::new(0, 0),
        Point::new(8, 9),
        style,
    ))
    .into();
    match Opcode::try_from(&m).unwrap() {
        Opcode::Rectangle(r) => {
            assert_eq!(r.tl, Point::new(0, 0));
            assert_eq!(r.br, Point::new(8, 9));
            assert_eq!(r.style.stroke_width, 1);
        }
        other => panic!("expected a rectangle, got {:?}", other),
    }
}

#[test]
fn geometry_decode_reads_packed_negative_coordinates() {
    let m = scalar(3, 0xffff_0005, 0x0001_fffe, 0, 0);
    match Opcode::try_from(&m).unwrap() {
        Opcode::Line(l) => {
            assert_eq!(l.start, Point::new(-1, 5));
            assert_eq!(l.end, Point::new(1, -2));
            assert_eq!(l.style.fill_color, None);
            assert_eq!(l.style.stroke_width, 0);
        }
        other => panic!("expected a line, got {:?}", other),
    }
}
