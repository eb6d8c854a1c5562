//! Drawing primitives that travel inside scalar messages: colors, styles,
//! points, rectangles, lines and circles, together with the packed word
//! forms in which a style or a point crosses the wire as one scalar
//! argument.

use vstd::prelude::*;

verus! {

/// The width of the display in pixels.
pub const WIDTH: i16 = 336;

/// The height of the display in pixels.
pub const HEIGHT: i16 = 536;

/// A monochrome pixel color.
#[derive(Debug, Clone, Copy, PartialEq, Eq)]
pub enum PixelColor {
    Dark,
    Light,
}

/// The color a word decodes to: any nonzero word is dark, zero is light.
pub open spec fn color_from_word(pc: usize) -> PixelColor {
    if pc != 0 {
        PixelColor::Dark
    } else {
        PixelColor::Light
    }
}

/// The positional index of a color, as the style encoding stores it.
pub open spec fn color_index(c: PixelColor) -> usize {
    match c {
        PixelColor::Dark => 0,
        PixelColor::Light => 1,
    }
}

impl From<usize> for PixelColor {
    fn from(pc: usize) -> (r: Self)
        ensures
            r == color_from_word(pc),
    {
        if pc != 0 {
            PixelColor::Dark
        } else {
            PixelColor::Light
        }
    }
}

impl vstd::std_specs::convert::FromSpecImpl<usize> for PixelColor {
    open spec fn obeys_from_spec() -> bool {
        true
    }

    open spec fn from_spec(pc: usize) -> PixelColor {
        color_from_word(pc)
    }
}

impl From<bool> for PixelColor {
    fn from(pc: bool) -> (r: Self)
        ensures
            r == if pc { PixelColor::Dark } else { PixelColor::Light },
    {
        if pc {
            PixelColor::Dark
        } else {
            PixelColor::Light
        }
    }
}

impl vstd::std_specs::convert::FromSpecImpl<bool> for PixelColor {
    open spec fn obeys_from_spec() -> bool {
        true
    }

    open spec fn from_spec(pc: bool) -> PixelColor {
        if pc { PixelColor::Dark } else { PixelColor::Light }
    }
}

/// Style properties for a drawn object.
#[derive(Debug, Clone, Copy, PartialEq, Eq)]
pub struct DrawStyle {
    /// Fill color of the object, if it is filled.
    pub fill_color: Option<PixelColor>,
    /// Stroke (border or line) color of the object, if it is stroked.
    pub stroke_color: Option<PixelColor>,
    /// Stroke width in pixels.
    pub stroke_width: i16,
}

/// The two bits an optional color occupies in a packed style word: the
/// high bit says whether a color is present, the low bit is its index.
pub open spec fn optional_color_bits(c: Option<PixelColor>) -> int {
    match c {
        Some(col) => 2 + color_index(col),
        None => 0,
    }
}

/// The packed word form of a style: the stroke width's sixteen-bit two's
/// complement in bits 16 and up, the stroke color pair in bits 2 and 3,
/// the fill color pair in bits 0 and 1.
pub open spec fn style_code(s: DrawStyle) -> int {
    (s.stroke_width as u16 as usize) * 0x1_0000 + optional_color_bits(s.stroke_color) * 4
        + optional_color_bits(s.fill_color)
}

/// The style a packed word decodes to: bit 1 and bit 3 say whether fill
/// and stroke are present, bit 0 and bit 2 carry the colors, and
/// everything above bit 15 is the stroke width.
pub open spec fn style_from_code(s: usize) -> DrawStyle {
    DrawStyle {
        fill_color: if (s / 2) % 2 == 1 { Some(color_from_word(s % 2)) } else { None },
        stroke_color: if (s / 8) % 2 == 1 { Some(color_from_word((s / 4) % 2)) } else { None },
        stroke_width: (s / 0x1_0000) as i16,
    }
}

impl DrawStyle {
    /// The style with the given fill, stroke and width.
    pub fn new(fill: PixelColor, stroke: PixelColor, width: i16) -> (r: Self)
        ensures
            r == (DrawStyle {
                fill_color: Some(fill),
                stroke_color: Some(stroke),
                stroke_width: width,
            }),
    {
        Self { fill_color: Some(fill), stroke_color: Some(stroke), stroke_width: width }
    }

    /// The default style with only the stroke color replaced.
    pub fn stroke_color(stroke_color: PixelColor) -> (r: Self)
        ensures
            r == (DrawStyle {
                fill_color: Some(PixelColor::Dark),
                stroke_color: Some(stroke_color),
                stroke_width: 1,
            }),
    {
        Self { stroke_color: Some(stroke_color), ..DrawStyle::default() }
    }
}

impl Default for DrawStyle {
    /// Dark fill and stroke, one pixel wide.
    fn default() -> (r: Self)
        ensures
            r == (DrawStyle {
                fill_color: Some(PixelColor::Dark),
                stroke_color: Some(PixelColor::Dark),
                stroke_width: 1,
            }),
    {
        Self {
            fill_color: Some(PixelColor::Dark),
            stroke_color: Some(PixelColor::Dark),
            stroke_width: 1,
        }
    }
}

impl From<usize> for DrawStyle {
    fn from(s: usize) -> (r: Self)
        ensures
            r == style_from_code(s),
    {
        let fc: PixelColor = PixelColor::from(s % 2);
        let sc: PixelColor = PixelColor::from((s / 4) % 2);
        DrawStyle {
            fill_color: if (s / 2) % 2 == 1 { Some(fc) } else { None },
            stroke_color: if (s / 8) % 2 == 1 { Some(sc) } else { None },
            stroke_width: #[verifier::truncate] ((s / 0x1_0000) as i16),
        }
    }
}

impl vstd::std_specs::convert::FromSpecImpl<usize> for DrawStyle {
    open spec fn obeys_from_spec() -> bool {
        true
    }

    open spec fn from_spec(s: usize) -> DrawStyle {
        style_from_code(s)
    }
}

impl From<DrawStyle> for usize {
    fn from(s: DrawStyle) -> (r: usize)
        ensures
            r == style_code(s),
    {
        let sc: usize = match s.stroke_color {
            Some(col) => 2 + color_index_word(col),
            None => 0,
        };
        let fc: usize = match s.fill_color {
            Some(col) => 2 + color_index_word(col),
            None => 0,
        };
        let width_bits: usize = #[verifier::truncate] (s.stroke_width as u16) as usize;
        width_bits * 0x1_0000 + sc * 4 + fc
    }
}

impl vstd::std_specs::convert::FromSpecImpl<DrawStyle> for usize {
    open spec fn obeys_from_spec() -> bool {
        true
    }

    open spec fn from_spec(s: DrawStyle) -> usize {
        style_code(s) as usize
    }
}

/// The color a packed color comes back as: the encoder stores the
/// positional index, the decoder reads any nonzero bit as dark, so a
/// cycle through the wire swaps the two colors. The convention is part of
/// the wire format and is kept for compatibility.
pub open spec fn reread_color(c: PixelColor) -> PixelColor {
    color_from_word(color_index(c))
}

/// The style a packing cycle gives back: the width and the presence of
/// each color survive exactly, each present color comes back reread.
pub open spec fn reread_style(s: DrawStyle) -> DrawStyle {
    DrawStyle {
        fill_color: match s.fill_color {
            Some(c) => Some(reread_color(c)),
            None => None,
        },
        stroke_color: match s.stroke_color {
            Some(c) => Some(reread_color(c)),
            None => None,
        },
        stroke_width: s.stroke_width,
    }
}

/// What a style looks like after a packing cycle: the width and the
/// presence of each color survive exactly, and each present color comes
/// back reread under the wire convention.
pub proof fn lemma_style_cycle(s: DrawStyle)
    ensures
        style_from_code(style_code(s) as usize) == reread_style(s),
{
    let wi = (s.stroke_width as u16) as int;
    let sc = optional_color_bits(s.stroke_color);
    let fc = optional_color_bits(s.fill_color);
    let code = wi * 0x1_0000 + sc * 4 + fc;
    assert(code / 0x1_0000 == wi
        && code % 2 == fc % 2
        && (code / 2) % 2 == fc / 2
        && (code / 4) % 2 == sc % 2
        && (code / 8) % 2 == sc / 2) by (nonlinear_arith)
        requires
            code == wi * 0x1_0000 + sc * 4 + fc,
            0 <= wi < 0x1_0000,
            0 <= sc <= 3,
            0 <= fc <= 3,
    ;
    let w = s.stroke_width;
    assert(w as u16 as i16 == w) by (bit_vector);
    assert(style_from_code(style_code(s) as usize) =~= reread_style(s));
}

/// The positional index of a color, as the style encoding stores it.
fn color_index_word(c: PixelColor) -> (r: usize)
    ensures
        r == color_index(c),
{
    match c {
        PixelColor::Dark => 0,
        PixelColor::Light => 1,
    }
}

/// A point on the display, with signed coordinates so that geometry a
/// little outside the visible area stays representable.
#[derive(Debug, Clone, Copy, PartialEq, Eq)]
pub struct Point {
    pub x: i16,
    pub y: i16,
}

/// The point a packed word decodes to: the x coordinate's sixteen-bit
/// two's complement in bits 16 to 31, the y coordinate's in bits 0 to 15.
pub open spec fn point_from_code(p: usize) -> Point {
    Point {
        x: ((p / 0x1_0000) % 0x1_0000) as i16,
        y: (p % 0x1_0000) as i16,
    }
}

/// The packed word form of a point: the x coordinate's sixteen-bit two's
/// complement in bits 16 to 31, the y coordinate's in bits 0 to 15.
pub open spec fn point_code(p: Point) -> int {
    (p.x as u16 as usize) * 0x1_0000 + (p.y as u16 as usize)
}

impl Point {
    /// The point at the given coordinates.
    pub fn new(x: i16, y: i16) -> (r: Point)
        ensures
            r == (Point { x, y }),
    {
        Point { x, y }
    }

    /// The origin.
    pub fn zero() -> (r: Point)
        ensures
            r == (Point { x: 0i16, y: 0i16 }),
    {
        Point { x: 0, y: 0 }
    }
}

impl From<usize> for Point {
    fn from(p: usize) -> (r: Point)
        ensures
            r == point_from_code(p),
    {
        Point {
            x: #[verifier::truncate] (((p / 0x1_0000) % 0x1_0000) as i16),
            y: #[verifier::truncate] ((p % 0x1_0000) as i16),
        }
    }
}

impl vstd::std_specs::convert::FromSpecImpl<usize> for Point {
    open spec fn obeys_from_spec() -> bool {
        true
    }

    open spec fn from_spec(p: usize) -> Point {
        point_from_code(p)
    }
}

impl From<Point> for usize {
    fn from(p: Point) -> (r: usize)
        ensures
            r == point_code(p),
    {
        let xbits: usize = #[verifier::truncate] (p.x as u16) as usize;
        let ybits: usize = #[verifier::truncate] (p.y as u16) as usize;
        xbits * 0x1_0000 + ybits
    }
}

impl vstd::std_specs::convert::FromSpecImpl<Point> for usize {
    open spec fn obeys_from_spec() -> bool {
        true
    }

    open spec fn from_spec(p: Point) -> usize {
        point_code(p) as usize
    }
}

/// Packing a point and re-reading it gives the point back: each
/// coordinate's sixteen-bit two's complement survives the cycle.
pub proof fn lemma_point_round_trip(p: Point)
    ensures
        point_from_code(point_code(p) as usize) == p,
{
    let xi = (p.x as u16) as int;
    let yi = (p.y as u16) as int;
    assert(0 <= xi < 0x1_0000 && 0 <= yi < 0x1_0000);
    assert((xi * 0x1_0000 + yi) / 0x1_0000 == xi && (xi * 0x1_0000 + yi) % 0x1_0000 == yi)
        by (nonlinear_arith)
        requires
            0 <= xi < 0x1_0000,
            0 <= yi < 0x1_0000,
    ;
    let x = p.x;
    let y = p.y;
    assert(x as u16 as i16 == x) by (bit_vector);
    assert(y as u16 as i16 == y) by (bit_vector);
    assert(point_from_code(point_code(p) as usize) =~= p);
}

/// A single pixel: a position and its color.
#[derive(Debug, Clone, Copy, PartialEq, Eq)]
pub struct Pixel(pub Point, pub PixelColor);

/// The smaller of two coordinates.
pub open spec fn min_coord(a: i16, b: i16) -> i16 {
    if a <= b { a } else { b }
}

/// The larger of two coordinates.
pub open spec fn max_coord(a: i16, b: i16) -> i16 {
    if a >= b { a } else { b }
}

/// The normalized rectangle spanned by two corners: the top-left point
/// takes the smaller coordinates, the bottom-right the larger.
pub open spec fn normalized_rect(p1: Point, p2: Point, style: DrawStyle) -> Rectangle {
    Rectangle {
        tl: Point { x: min_coord(p1.x, p2.x), y: min_coord(p1.y, p2.y) },
        br: Point { x: max_coord(p1.x, p2.x), y: max_coord(p1.y, p2.y) },
        style,
    }
}

/// An axis-aligned rectangle, kept normalized: the top-left point is
/// coordinate-wise at most the bottom-right point.
#[derive(Debug, Clone, Copy, PartialEq, Eq)]
pub struct Rectangle {
    /// Top left point of the rectangle.
    pub tl: Point,
    /// Bottom right point of the rectangle.
    pub br: Point,
    /// Drawing style.
    pub style: DrawStyle,
}

impl Rectangle {
    /// The normalized rectangle spanned by two corners, default style.
    pub fn new(p1: Point, p2: Point) -> (r: Rectangle)
        ensures
            r == normalized_rect(p1, p2, DrawStyle {
                fill_color: Some(PixelColor::Dark),
                stroke_color: Some(PixelColor::Dark),
                stroke_width: 1,
            }),
    {
        Rectangle {
            tl: Point::new(min_i16(p1.x, p2.x), min_i16(p1.y, p2.y)),
            br: Point::new(max_i16(p1.x, p2.x), max_i16(p1.y, p2.y)),
            style: DrawStyle::default(),
        }
    }

    /// The normalized rectangle spanned by two corner coordinate pairs,
    /// default style.
    pub fn new_coords(x0: i16, y0: i16, x1: i16, y1: i16) -> (r: Rectangle)
        ensures
            r == normalized_rect(Point { x: x0, y: y0 }, Point { x: x1, y: y1 }, DrawStyle {
                fill_color: Some(PixelColor::Dark),
                stroke_color: Some(PixelColor::Dark),
                stroke_width: 1,
            }),
    {
        Rectangle {
            tl: Point::new(min_i16(x0, x1), min_i16(y0, y1)),
            br: Point::new(max_i16(x0, x1), max_i16(y0, y1)),
            style: DrawStyle::default(),
        }
    }

    /// The normalized rectangle spanned by two corner coordinate pairs,
    /// with the given style.
    pub fn new_coords_with_style(x0: i16, y0: i16, x1: i16, y1: i16, style: DrawStyle)
        -> (r: Rectangle)
        ensures
            r == normalized_rect(Point { x: x0, y: y0 }, Point { x: x1, y: y1 }, style),
    {
        Rectangle {
            tl: Point::new(min_i16(x0, x1), min_i16(y0, y1)),
            br: Point::new(max_i16(x0, x1), max_i16(y0, y1)),
            style,
        }
    }

    /// The normalized rectangle spanned by two corners, with the given
    /// style.
    pub fn new_with_style(p1: Point, p2: Point, style: DrawStyle) -> (r: Rectangle)
        ensures
            r == normalized_rect(p1, p2, style),
    {
        Rectangle {
            tl: Point::new(min_i16(p1.x, p2.x), min_i16(p1.y, p2.y)),
            br: Point::new(max_i16(p1.x, p2.x), max_i16(p1.y, p2.y)),
            style,
        }
    }

    /// The left edge as an unsigned word, for clip regions.
    pub fn x0(&self) -> (r: usize)
        ensures
            r == self.tl.x as usize,
    {
        #[verifier::truncate] (self.tl.x as usize)
    }

    /// The right edge as an unsigned word, for clip regions.
    pub fn x1(&self) -> (r: usize)
        ensures
            r == self.br.x as usize,
    {
        #[verifier::truncate] (self.br.x as usize)
    }

    /// The top edge as an unsigned word, for clip regions.
    pub fn y0(&self) -> (r: usize)
        ensures
            r == self.tl.y as usize,
    {
        #[verifier::truncate] (self.tl.y as usize)
    }

    /// The bottom edge as an unsigned word, for clip regions.
    pub fn y1(&self) -> (r: usize)
        ensures
            r == self.br.y as usize,
    {
        #[verifier::truncate] (self.br.y as usize)
    }

    /// The rectangle covering the full display, default style.
    pub fn full_screen() -> (r: Rectangle)
        ensures
            r.tl == (Point { x: 0i16, y: 0i16 }),
            r.br == (Point { x: WIDTH, y: HEIGHT }),
            r.style == (DrawStyle {
                fill_color: Some(PixelColor::Dark),
                stroke_color: Some(PixelColor::Dark),
                stroke_width: 1,
            }),
    {
        Rectangle {
            tl: Point::new(0, 0),
            br: Point::new(WIDTH, HEIGHT),
            style: DrawStyle::default(),
        }
    }

    /// The display minus a six-pixel padding on every side, default
    /// style.
    pub fn padded_screen() -> (r: Rectangle)
        ensures
            r.tl == (Point { x: 6i16, y: 6i16 }),
            r.br == (Point { x: (WIDTH - 6) as i16, y: (HEIGHT - 6) as i16 }),
            r.style == (DrawStyle {
                fill_color: Some(PixelColor::Dark),
                stroke_color: Some(PixelColor::Dark),
                stroke_width: 1,
            }),
    {
        let pad: i16 = 6;
        Rectangle {
            tl: Point::new(pad, pad),
            br: Point::new(WIDTH - pad, HEIGHT - pad),
            style: DrawStyle::default(),
        }
    }
}

/// A straight line between two points.
#[derive(Debug, Clone, Copy, PartialEq, Eq)]
pub struct Line {
    pub start: Point,
    pub end: Point,
    /// Drawing style.
    pub style: DrawStyle,
}

impl Line {
    /// The line between two points, default style.
    pub fn new(start: Point, end: Point) -> (r: Line)
        ensures
            r.start == start,
            r.end == end,
            r.style == (DrawStyle {
                fill_color: Some(PixelColor::Dark),
                stroke_color: Some(PixelColor::Dark),
                stroke_width: 1,
            }),
    {
        Line { start, end, style: DrawStyle::default() }
    }

    /// The line between two points, with the given style.
    pub fn new_with_style(start: Point, end: Point, style: DrawStyle) -> (r: Line)
        ensures
            r == (Line { start, end, style }),
    {
        Line { start, end, style }
    }
}

/// A circle of a given center and radius.
#[derive(Debug, Clone, Copy, PartialEq, Eq)]
pub struct Circle {
    pub center: Point,
    pub radius: i16,
    /// Drawing style.
    pub style: DrawStyle,
}

impl Circle {
    /// The circle with the given center and radius, default style.
    pub fn new(c: Point, r: i16) -> (res: Circle)
        ensures
            res.center == c,
            res.radius == r,
            res.style == (DrawStyle {
                fill_color: Some(PixelColor::Dark),
                stroke_color: Some(PixelColor::Dark),
                stroke_width: 1,
            }),
    {
        Circle { center: c, radius: r, style: DrawStyle::default() }
    }

    /// The circle with the given center and radius, with the given style.
    pub fn new_with_style(c: Point, r: i16, style: DrawStyle) -> (res: Circle)
        ensures
            res == (Circle { center: c, radius: r, style }),
    {
        Circle { center: c, radius: r, style }
    }
}

/// The smaller of two coordinates.
fn min_i16(a: i16, b: i16) -> (r: i16)
    ensures
        r == min_coord(a, b),
{
    if a <= b { a } else { b }
}

/// The larger of two coordinates.
fn max_i16(a: i16, b: i16) -> (r: i16)
    ensures
        r == max_coord(a, b),
{
    if a >= b { a } else { b }
}

} // verus!
