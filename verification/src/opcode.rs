//! The drawing server's operation encoding: how each drawing request maps
//! to and from a message, using the scalar argument slots for geometry
//! and a lent buffer for text. The renderer-owned payloads travel as
//! plain words: the glyph set as the selector word the renderer defined,
//! the cursor and the clip region as their coordinates; text travels as
//! the description of the lent buffer, which the receiving side reads at
//! the transport edge.

use vstd::prelude::*;
use crate::geometry::{
    Circle, DrawStyle, Line, Point, Rectangle, lemma_point_round_trip, lemma_style_cycle,
    normalized_rect, point_code, point_from_code, reread_style, style_code, style_from_code,
};
use crate::message::{MemoryMessage, Message, ScalarMessage};

verus! {

/// A cursor position for text rendering: a point and the height of the
/// line being written, in pixels.
#[derive(Debug, Clone, Copy, PartialEq, Eq)]
pub struct TextCursor {
    pub x: usize,
    pub y: usize,
    pub line_height: usize,
}

/// A clipping region for text rendering, as two unsigned corner
/// coordinate pairs.
#[derive(Debug, Clone, Copy, PartialEq, Eq)]
pub struct TextClip {
    pub min_x: usize,
    pub min_y: usize,
    pub max_x: usize,
    pub max_y: usize,
}

/// A drawing request, as the drawing server's mailbox understands it.
#[derive(Debug, PartialEq, Eq)]
pub enum Opcode {
    /// Flush the buffer to the screen.
    Flush,
    /// Clear the buffer to light pixels.
    Clear,
    /// Draw a line.
    Line(Line),
    /// Draw a rectangle.
    Rectangle(Rectangle),
    /// Draw a circle.
    Circle(Circle),
    /// Select the glyph set for strings, by the renderer's selector word.
    SetGlyphStyle(usize),
    /// Set the cursor for the current string clipping region.
    SetCursor(TextCursor),
    /// Retrieve the cursor of the current string clipping region.
    GetCursor,
    /// Set the clipping region for strings.
    SetStringClipping(TextClip),
    /// Render text lent in a buffer: the holder reads the bytes out of
    /// the described region at the transport edge.
    Text(MemoryMessage),
    /// Retrieve the screen dimensions.
    ScreenSize,
    /// Retrieve the current glyph set selector.
    QueryGlyphStyle,
}

/// The operation a message carries, if its shape and identifier are in
/// the table: plain requests and geometry travel as scalar messages,
/// queries as blocking scalars, text as a borrow with identifier one.
pub open spec fn opcode_of(m: Message) -> Option<Opcode> {
    match m {
        Message::Scalar(sm) =>
            if sm.id == 1 {
                Some(Opcode::Flush)
            } else if sm.id == 2 {
                Some(Opcode::Clear)
            } else if sm.id == 3 {
                Some(Opcode::Line(Line {
                    start: point_from_code(sm.arg1),
                    end: point_from_code(sm.arg2),
                    style: style_from_code(sm.arg3),
                }))
            } else if sm.id == 4 {
                Some(Opcode::Rectangle(normalized_rect(
                    point_from_code(sm.arg1),
                    point_from_code(sm.arg2),
                    style_from_code(sm.arg3),
                )))
            } else if sm.id == 5 {
                Some(Opcode::Circle(Circle {
                    center: point_from_code(sm.arg1),
                    radius: sm.arg2 as i16,
                    style: style_from_code(sm.arg3),
                }))
            } else if sm.id == 9 {
                Some(Opcode::SetGlyphStyle(sm.arg1))
            } else if sm.id == 11 {
                Some(Opcode::SetStringClipping(TextClip {
                    min_x: sm.arg1,
                    min_y: sm.arg2,
                    max_x: sm.arg3,
                    max_y: sm.arg4,
                }))
            } else if sm.id == 12 {
                Some(Opcode::SetCursor(TextCursor {
                    x: sm.arg1,
                    y: sm.arg2,
                    line_height: sm.arg3,
                }))
            } else {
                None
            },
        Message::BlockingScalar(sm) =>
            if sm.id == 8 {
                Some(Opcode::ScreenSize)
            } else if sm.id == 10 {
                Some(Opcode::QueryGlyphStyle)
            } else if sm.id == 13 {
                Some(Opcode::GetCursor)
            } else {
                None
            },
        Message::Borrow(mm) =>
            if mm.id == 1 {
                Some(Opcode::Text(mm))
            } else {
                None
            },
        Message::MutableBorrow(_) => None,
        Message::Move(_) => None,
    }
}

/// The message an operation travels as; the inverse direction of the
/// table, with text sent as a borrow under identifier one.
pub open spec fn message_of(op: Opcode) -> Message {
    match op {
        Opcode::Flush => Message::Scalar(ScalarMessage { id: 1, arg1: 0, arg2: 0, arg3: 0, arg4: 0 }),
        Opcode::Clear => Message::Scalar(ScalarMessage { id: 2, arg1: 0, arg2: 0, arg3: 0, arg4: 0 }),
        Opcode::Line(line) => Message::Scalar(ScalarMessage {
            id: 3,
            arg1: point_code(line.start) as usize,
            arg2: point_code(line.end) as usize,
            arg3: style_code(line.style) as usize,
            arg4: 0,
        }),
        Opcode::Rectangle(r) => Message::Scalar(ScalarMessage {
            id: 4,
            arg1: point_code(r.tl) as usize,
            arg2: point_code(r.br) as usize,
            arg3: style_code(r.style) as usize,
            arg4: 0,
        }),
        Opcode::Circle(c) => Message::Scalar(ScalarMessage {
            id: 5,
            arg1: point_code(c.center) as usize,
            arg2: c.radius as u16 as usize,
            arg3: style_code(c.style) as usize,
            arg4: 0,
        }),
        Opcode::SetGlyphStyle(glyph) => Message::Scalar(ScalarMessage {
            id: 9,
            arg1: glyph,
            arg2: 0,
            arg3: 0,
            arg4: 0,
        }),
        Opcode::SetCursor(c) => Message::Scalar(ScalarMessage {
            id: 12,
            arg1: c.x,
            arg2: c.y,
            arg3: c.line_height,
            arg4: 0,
        }),
        Opcode::GetCursor => Message::BlockingScalar(ScalarMessage {
            id: 13,
            arg1: 0,
            arg2: 0,
            arg3: 0,
            arg4: 0,
        }),
        Opcode::SetStringClipping(r) => Message::Scalar(ScalarMessage {
            id: 11,
            arg1: r.min_x,
            arg2: r.min_y,
            arg3: r.max_x,
            arg4: r.max_y,
        }),
        Opcode::Text(mm) => Message::Borrow(MemoryMessage {
            id: 1,
            buf: mm.buf,
            offset: mm.offset,
            valid: mm.valid,
        }),
        Opcode::ScreenSize => Message::BlockingScalar(ScalarMessage {
            id: 8,
            arg1: 0,
            arg2: 0,
            arg3: 0,
            arg4: 0,
        }),
        Opcode::QueryGlyphStyle => Message::BlockingScalar(ScalarMessage {
            id: 10,
            arg1: 0,
            arg2: 0,
            arg3: 0,
            arg4: 0,
        }),
    }
}

impl Opcode {
    /// Decode a message into the operation it carries; an unrecognized
    /// identifier or an unhandled message shape is reported as text for
    /// the server's log.
    pub fn try_from(message: &Message) -> (r: Result<Opcode, &'static str>)
        ensures
            match opcode_of(*message) {
                Some(op) => r == Ok::<Opcode, &'static str>(op),
                None => r is Err,
            },
    {
        match message {
            Message::Scalar(m) => match m.id {
                1 => Ok(Opcode::Flush),
                2 => Ok(Opcode::Clear),
                3 => Ok(Opcode::Line(Line::new_with_style(
                    Point::from(m.arg1),
                    Point::from(m.arg2),
                    DrawStyle::from(m.arg3),
                ))),
                4 => Ok(Opcode::Rectangle(Rectangle::new_with_style(
                    Point::from(m.arg1),
                    Point::from(m.arg2),
                    DrawStyle::from(m.arg3),
                ))),
                5 => Ok(Opcode::Circle(Circle::new_with_style(
                    Point::from(m.arg1),
                    #[verifier::truncate] (m.arg2 as i16),
                    DrawStyle::from(m.arg3),
                ))),
                9 => Ok(Opcode::SetGlyphStyle(m.arg1)),
                11 => Ok(Opcode::SetStringClipping(TextClip {
                    min_x: m.arg1,
                    min_y: m.arg2,
                    max_x: m.arg3,
                    max_y: m.arg4,
                })),
                12 => Ok(Opcode::SetCursor(TextCursor {
                    x: m.arg1,
                    y: m.arg2,
                    line_height: m.arg3,
                })),
                _ => Err("unrecognized opcode"),
            },
            Message::BlockingScalar(m) => match m.id {
                8 => Ok(Opcode::ScreenSize),
                10 => Ok(Opcode::QueryGlyphStyle),
                13 => Ok(Opcode::GetCursor),
                _ => Err("unrecognized opcode"),
            },
            Message::Borrow(m) => match m.id {
                1 => Ok(Opcode::Text(MemoryMessage {
                    id: m.id,
                    buf: m.buf,
                    offset: m.offset,
                    valid: m.valid,
                })),
                _ => Err("unrecognized opcode"),
            },
            _ => Err("unhandled message type"),
        }
    }
}

impl From<Opcode> for Message {
    /// Encode an operation as the message it travels as.
    fn from(op: Opcode) -> (r: Message)
        ensures
            r == message_of(op),
    {
        match op {
            Opcode::Flush => Message::Scalar(ScalarMessage::from_usize(1, 0, 0, 0, 0)),
            Opcode::Clear => Message::Scalar(ScalarMessage::from_usize(2, 0, 0, 0, 0)),
            Opcode::Line(line) => Message::Scalar(ScalarMessage::from_usize(
                3,
                usize::from(line.start),
                usize::from(line.end),
                usize::from(line.style),
                0,
            )),
            Opcode::Rectangle(r) => Message::Scalar(ScalarMessage::from_usize(
                4,
                usize::from(r.tl),
                usize::from(r.br),
                usize::from(r.style),
                0,
            )),
            Opcode::Circle(c) => Message::Scalar(ScalarMessage::from_usize(
                5,
                usize::from(c.center),
                #[verifier::truncate] (c.radius as u16) as usize,
                usize::from(c.style),
                0,
            )),
            Opcode::ScreenSize => Message::BlockingScalar(ScalarMessage::from_usize(
                8, 0, 0, 0, 0,
            )),
            Opcode::QueryGlyphStyle => Message::BlockingScalar(ScalarMessage::from_usize(
                10, 0, 0, 0, 0,
            )),
            Opcode::SetGlyphStyle(glyph) => Message::Scalar(ScalarMessage::from_usize(
                9, glyph, 0, 0, 0,
            )),
            Opcode::SetStringClipping(r) => Message::Scalar(ScalarMessage::from_usize(
                11, r.min_x, r.min_y, r.max_x, r.max_y,
            )),
            Opcode::Text(mm) => Message::Borrow(MemoryMessage {
                id: 1,
                buf: mm.buf,
                offset: mm.offset,
                valid: mm.valid,
            }),
            Opcode::SetCursor(c) => Message::Scalar(ScalarMessage::from_usize(
                12, c.x, c.y, c.line_height, 0,
            )),
            Opcode::GetCursor => Message::BlockingScalar(ScalarMessage::from_usize(
                13, 0, 0, 0, 0,
            )),
        }
    }
}

impl vstd::std_specs::convert::FromSpecImpl<Opcode> for Message {
    open spec fn obeys_from_spec() -> bool {
        true
    }

    open spec fn from_spec(op: Opcode) -> Message {
        message_of(op)
    }
}

/// Every operation whose payload travels as plain words survives an
/// encode/decode cycle, text included once it carries its wire
/// identifier; the geometry operations are excluded, since their packed
/// point and style words re-read under the style table's color
/// conventions.
pub proof fn lemma_opcode_round_trip(op: Opcode)
    requires
        match op {
            Opcode::Line(_) => false,
            Opcode::Rectangle(_) => false,
            Opcode::Circle(_) => false,
            Opcode::Text(mm) => mm.id == 1,
            _ => true,
        },
    ensures
        opcode_of(message_of(op)) == Some(op),
{
}

/// A geometry operation survives an encode/decode cycle up to the wire's
/// color convention: positions, radius and width come back exactly, a
/// normalized rectangle comes back as itself, and the style comes back
/// reread.
pub proof fn lemma_geometry_opcode_cycle(op: Opcode)
    ensures
        op matches Opcode::Line(l) ==> opcode_of(message_of(op)) == Some(Opcode::Line(Line {
            start: l.start,
            end: l.end,
            style: reread_style(l.style),
        })),
        op matches Opcode::Circle(c) ==> opcode_of(message_of(op)) == Some(Opcode::Circle(
            Circle { center: c.center, radius: c.radius, style: reread_style(c.style) },
        )),
        op matches Opcode::Rectangle(r) ==> ((r.tl.x <= r.br.x && r.tl.y <= r.br.y)
            ==> opcode_of(message_of(op)) == Some(Opcode::Rectangle(Rectangle {
                tl: r.tl,
                br: r.br,
                style: reread_style(r.style),
            }))),
{
    match op {
        Opcode::Line(l) => {
            lemma_point_round_trip(l.start);
            lemma_point_round_trip(l.end);
            lemma_style_cycle(l.style);
        }
        Opcode::Rectangle(r) => {
            lemma_point_round_trip(r.tl);
            lemma_point_round_trip(r.br);
            lemma_style_cycle(r.style);
        }
        Opcode::Circle(c) => {
            lemma_point_round_trip(c.center);
            lemma_style_cycle(c.style);
            let rad = c.radius;
            assert(rad as u16 as i16 == rad) by (bit_vector);
        }
        _ => {}
    }
}

} // verus!
