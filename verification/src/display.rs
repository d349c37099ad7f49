//! The display: composition of drawable elements and touch dispatch.
//!
//! An element is a positioned group of shapes.  Drawing composes, for
//! every shape, the absolute-coordinate drawing call to issue — the
//! caller then performs those calls on the screen.  Touch dispatch finds
//! the first element a touch lands in; the caller runs whatever handler
//! it registered under the element's tag.
//!
//! Coordinates are kept small enough that offsetting and hit-testing
//! never overflow the machine arithmetic.

use vstd::prelude::*;

verus! {

/// The width of the brain screen in pixels.
pub const BRAIN_SCREEN_WIDTH: i32 = 480;

/// The height of the brain screen in pixels.
pub const BRAIN_SCREEN_HEIGHT: i32 = 240;

/// A coordinate or radius small enough that sums of a few of them stay
/// within the machine range.
pub open spec fn coord_ok(v: int) -> bool {
    -0x2000_0000 <= v <= 0x2000_0000
}

/// A touch event on the screen.
#[derive(Copy, Clone, Debug, PartialEq, Eq, Structural)]
pub enum TouchEvent {
    /// The finger left the screen.
    Release,
    /// The finger touched the screen.
    Press,
    /// The touch is being held and repeats.
    AutoPress,
}

impl TouchEvent {
    /// Decodes the event code of the touch interrupt; unknown codes carry
    /// no event.
    pub fn decode(event: u32) -> (r: Option<TouchEvent>)
        ensures
            r == match event {
                0u32 => Some(TouchEvent::Release),
                1u32 => Some(TouchEvent::Press),
                2u32 => Some(TouchEvent::AutoPress),
                _ => None::<TouchEvent>,
            },
    {
        match event {
            0 => Some(TouchEvent::Release),
            1 => Some(TouchEvent::Press),
            2 => Some(TouchEvent::AutoPress),
            _ => None,
        }
    }
}

/// A shape that can be drawn.  Text cannot be detected as pressed, so a
/// rectangle or circle is needed to make a button.
#[derive(Clone, Debug)]
pub enum Shape {
    /// An axis-aligned rectangle between two corners.
    Rectangle { x1: i32, y1: i32, x2: i32, y2: i32, color: u32, fill: bool },
    /// A circle around a center.
    Circle { cx: i32, cy: i32, r: i32, color: u32, fill: bool },
    /// A line of text in the regular size.
    Text { tx: i32, ty: i32, color: u32, text: String },
    /// A line of text in the large size.
    BigText { tx: i32, ty: i32, color: u32, text: String },
    /// A line of text in the small size.
    SmallText { tx: i32, ty: i32, color: u32, text: String },
}

/// The same shape with its color replaced.
pub open spec fn with_color(s: Shape, c: u32) -> Shape {
    match s {
        Shape::Rectangle { x1, y1, x2, y2, color, fill } => Shape::Rectangle {
            x1,
            y1,
            x2,
            y2,
            color: c,
            fill,
        },
        Shape::Circle { cx, cy, r, color, fill } => Shape::Circle { cx, cy, r, color: c, fill },
        Shape::Text { tx, ty, color, text } => Shape::Text { tx, ty, color: c, text },
        Shape::BigText { tx, ty, color, text } => Shape::BigText { tx, ty, color: c, text },
        Shape::SmallText { tx, ty, color, text } => Shape::SmallText { tx, ty, color: c, text },
    }
}

/// The same shape with its fill flag replaced; text has no fill and is
/// left as it is.
pub open spec fn with_fill(s: Shape, f: bool) -> Shape {
    match s {
        Shape::Rectangle { x1, y1, x2, y2, color, fill } => Shape::Rectangle {
            x1,
            y1,
            x2,
            y2,
            color,
            fill: f,
        },
        Shape::Circle { cx, cy, r, color, fill } => Shape::Circle { cx, cy, r, color, fill: f },
        _ => s,
    }
}

/// Whether every coordinate of the shape is small enough for offset
/// arithmetic.
pub open spec fn shape_ok(s: Shape) -> bool {
    match s {
        Shape::Rectangle { x1, y1, x2, y2, .. } => coord_ok(x1 as int) && coord_ok(y1 as int)
            && coord_ok(x2 as int) && coord_ok(y2 as int),
        Shape::Circle { cx, cy, r, .. } => coord_ok(cx as int) && coord_ok(cy as int) && coord_ok(
            r as int,
        ),
        Shape::Text { tx, ty, .. } => coord_ok(tx as int) && coord_ok(ty as int),
        Shape::BigText { tx, ty, .. } => coord_ok(tx as int) && coord_ok(ty as int),
        Shape::SmallText { tx, ty, .. } => coord_ok(tx as int) && coord_ok(ty as int),
    }
}

impl Shape {
    /// Sets the color of the shape.
    pub fn set_color(&mut self, new_color: u32)
        ensures
            *final(self) == with_color(*old(self), new_color),
    {
        match self {
            Shape::Rectangle { x1: _, y1: _, x2: _, y2: _, color, fill: _ } => {
                *color = new_color;
            },
            Shape::Circle { cx: _, cy: _, r: _, color, fill: _ } => {
                *color = new_color;
            },
            Shape::Text { tx: _, ty: _, color, text: _ } => {
                *color = new_color;
            },
            Shape::BigText { tx: _, ty: _, color, text: _ } => {
                *color = new_color;
            },
            Shape::SmallText { tx: _, ty: _, color, text: _ } => {
                *color = new_color;
            },
        }
    }

    /// Sets the fill of the shape; text is unaffected.
    pub fn set_fill(&mut self, new_fill: bool)
        ensures
            *final(self) == with_fill(*old(self), new_fill),
    {
        match self {
            Shape::Rectangle { x1: _, y1: _, x2: _, y2: _, color: _, fill } => {
                *fill = new_fill;
            },
            Shape::Circle { cx: _, cy: _, r: _, color: _, fill } => {
                *fill = new_fill;
            },
            _ => {},
        }
    }
}

/// One drawing call to issue on the screen, in absolute coordinates.
#[derive(Clone, Debug)]
pub enum DrawOp {
    /// Fill a rectangle with the color.
    RectFill { x1: i32, y1: i32, x2: i32, y2: i32, color: u32 },
    /// Draw the outline of a rectangle with the color.
    RectOutline { x1: i32, y1: i32, x2: i32, y2: i32, color: u32 },
    /// Fill a circle with the color.
    CircleFill { cx: i32, cy: i32, r: i32, color: u32 },
    /// Draw the outline of a circle with the color.
    CircleOutline { cx: i32, cy: i32, r: i32, color: u32 },
    /// Write a line of text in the regular size.
    TextAt { x: i32, y: i32, color: u32, text: String },
    /// Write a line of text in the large size.
    BigTextAt { x: i32, y: i32, color: u32, text: String },
    /// Write a line of text in the small size.
    SmallTextAt { x: i32, y: i32, color: u32, text: String },
}

/// The drawing call a shape produces once the element offset `(ex, ey)`
/// is added to its coordinates.
pub open spec fn shape_op(s: Shape, ex: int, ey: int) -> DrawOp {
    match s {
        Shape::Rectangle { x1, y1, x2, y2, color, fill } => if fill {
            DrawOp::RectFill {
                x1: (x1 + ex) as i32,
                y1: (y1 + ey) as i32,
                x2: (x2 + ex) as i32,
                y2: (y2 + ey) as i32,
                color,
            }
        } else {
            DrawOp::RectOutline {
                x1: (x1 + ex) as i32,
                y1: (y1 + ey) as i32,
                x2: (x2 + ex) as i32,
                y2: (y2 + ey) as i32,
                color,
            }
        },
        Shape::Circle { cx, cy, r, color, fill } => if fill {
            DrawOp::CircleFill { cx: (cx + ex) as i32, cy: (cy + ey) as i32, r, color }
        } else {
            DrawOp::CircleOutline { cx: (cx + ex) as i32, cy: (cy + ey) as i32, r, color }
        },
        Shape::Text { tx, ty, color, text } => DrawOp::TextAt {
            x: (tx + ex) as i32,
            y: (ty + ey) as i32,
            color,
            text,
        },
        Shape::BigText { tx, ty, color, text } => DrawOp::BigTextAt {
            x: (tx + ex) as i32,
            y: (ty + ey) as i32,
            color,
            text,
        },
        Shape::SmallText { tx, ty, color, text } => DrawOp::SmallTextAt {
            x: (tx + ex) as i32,
            y: (ty + ey) as i32,
            color,
            text,
        },
    }
}

/// Whether the point `(x, y)` lands in the shape once the element offset
/// is added: strictly inside a rectangle, or within a circle's radius.
/// Text is never hit.
pub open spec fn point_in_shape(s: Shape, ex: int, ey: int, x: int, y: int) -> bool {
    match s {
        Shape::Rectangle { x1, y1, x2, y2, .. } => x1 + ex < x < x2 + ex && y1 + ey < y < y2 + ey,
        Shape::Circle { cx, cy, r, .. } => (cx + ex - x) * (cx + ex - x) + (cy + ey - y) * (cy + ey
            - y) <= r * r,
        _ => false,
    }
}

/// A drawable element: a positioned group of shapes, with an optional
/// tag under which the caller registered a touch handler.
#[derive(Clone, Debug)]
pub struct Element {
    /// The shapes of the element, drawn in order.
    pub shapes: Vec<Shape>,
    /// The horizontal offset added to every shape.
    pub x: i32,
    /// The vertical offset added to every shape.
    pub y: i32,
    /// The tag of the touch handler the caller registered, if any.
    pub touch: Option<u32>,
}

/// Whether the element's offset and every shape stay within the range
/// the offset arithmetic needs.
pub open spec fn element_ok(e: Element) -> bool {
    &&& coord_ok(e.x as int)
    &&& coord_ok(e.y as int)
    &&& forall|i: int| 0 <= i < e.shapes@.len() ==> shape_ok(#[trigger] e.shapes@[i])
}

/// The drawing calls an element produces, shape by shape.
pub open spec fn element_ops(e: Element) -> Seq<DrawOp> {
    Seq::new(e.shapes@.len(), |i: int| shape_op(e.shapes@[i], e.x as int, e.y as int))
}

/// Whether the point `(x, y)` lands in some shape of the element.
pub open spec fn element_hit(e: Element, x: int, y: int) -> bool {
    exists|i: int| 0 <= i < e.shapes@.len() && point_in_shape(#[trigger] e.shapes@[i], e.x as int, e.y as int, x, y)
}

impl Element {
    /// Creates an empty element at the given offset.
    pub fn new(x: i32, y: i32) -> (r: Element)
        requires
            coord_ok(x as int),
            coord_ok(y as int),
        ensures
            element_ok(r),
            r.shapes@.len() == 0,
            r.x == x,
            r.y == y,
            r.touch is None,
    {
        Element { shapes: Vec::new(), x, y, touch: None }
    }

    /// Registers the tag of the element's touch handler.
    pub fn on_touch(&mut self, handler: u32)
        ensures
            final(self).touch == Some(handler),
            final(self).shapes == old(self).shapes,
            final(self).x == old(self).x,
            final(self).y == old(self).y,
    {
        self.touch = Some(handler);
    }

    /// Adds a rectangle of the given origin and size.
    pub fn rectangle(&mut self, x: i32, y: i32, w: i32, h: i32, color: u32, fill: bool)
        requires
            coord_ok(x as int),
            coord_ok(y as int),
            coord_ok(x as int + w as int),
            coord_ok(y as int + h as int),
        ensures
            final(self).shapes@ == old(self).shapes@.push(
                Shape::Rectangle {
                    x1: x,
                    y1: y,
                    x2: (x + w) as i32,
                    y2: (y + h) as i32,
                    color,
                    fill,
                },
            ),
            final(self).x == old(self).x,
            final(self).y == old(self).y,
            final(self).touch == old(self).touch,
    {
        self.shapes.push(Shape::Rectangle { x1: x, y1: y, x2: x + w, y2: y + h, color, fill });
    }

    /// Adds a circle of the given center and radius.
    pub fn circle(&mut self, x: i32, y: i32, r: i32, color: u32, fill: bool)
        requires
            coord_ok(x as int),
            coord_ok(y as int),
            coord_ok(r as int),
        ensures
            final(self).shapes@ == old(self).shapes@.push(
                Shape::Circle { cx: x, cy: y, r, color, fill },
            ),
            final(self).x == old(self).x,
            final(self).y == old(self).y,
            final(self).touch == old(self).touch,
    {
        self.shapes.push(Shape::Circle { cx: x, cy: y, r, color, fill });
    }

    /// Adds a line of text in the regular size.
    pub fn text(&mut self, x: i32, y: i32, color: u32, text: String)
        requires
            coord_ok(x as int),
            coord_ok(y as int),
        ensures
            final(self).shapes@ == old(self).shapes@.push(Shape::Text { tx: x, ty: y, color, text }),
            final(self).x == old(self).x,
            final(self).y == old(self).y,
            final(self).touch == old(self).touch,
    {
        self.shapes.push(Shape::Text { tx: x, ty: y, color, text });
    }

    /// Adds a line of text in the small size.
    pub fn small_text(&mut self, x: i32, y: i32, color: u32, text: String)
        requires
            coord_ok(x as int),
            coord_ok(y as int),
        ensures
            final(self).shapes@ == old(self).shapes@.push(
                Shape::SmallText { tx: x, ty: y, color, text },
            ),
            final(self).x == old(self).x,
            final(self).y == old(self).y,
            final(self).touch == old(self).touch,
    {
        self.shapes.push(Shape::SmallText { tx: x, ty: y, color, text });
    }

    /// Adds a line of text in the large size.
    pub fn big_text(&mut self, x: i32, y: i32, color: u32, text: String)
        requires
            coord_ok(x as int),
            coord_ok(y as int),
        ensures
            final(self).shapes@ == old(self).shapes@.push(
                Shape::BigText { tx: x, ty: y, color, text },
            ),
            final(self).x == old(self).x,
            final(self).y == old(self).y,
            final(self).touch == old(self).touch,
    {
        self.shapes.push(Shape::BigText { tx: x, ty: y, color, text });
    }

    /// The drawing calls this element produces: each shape offset to its
    /// absolute position, filled or outlined as requested.
    pub fn draw_ops(&self) -> (r: Vec<DrawOp>)
        requires
            element_ok(*self),
        ensures
            r@ == element_ops(*self),
    {
        let mut r: Vec<DrawOp> = Vec::new();
        let mut i: usize = 0;
        while i < self.shapes.len()
            invariant
                element_ok(*self),
                i <= self.shapes@.len(),
                r@.len() == i,
                forall|q: int|
                    0 <= q < i ==> r@[q] == shape_op(
                        #[trigger] self.shapes@[q],
                        self.x as int,
                        self.y as int,
                    ),
            decreases self.shapes@.len() - i,
        {
            let op = match &self.shapes[i] {
                Shape::Rectangle { x1, y1, x2, y2, color, fill } => {
                    if *fill {
                        DrawOp::RectFill {
                            x1: *x1 + self.x,
                            y1: *y1 + self.y,
                            x2: *x2 + self.x,
                            y2: *y2 + self.y,
                            color: *color,
                        }
                    } else {
                        DrawOp::RectOutline {
                            x1: *x1 + self.x,
                            y1: *y1 + self.y,
                            x2: *x2 + self.x,
                            y2: *y2 + self.y,
                            color: *color,
                        }
                    }
                },
                Shape::Circle { cx, cy, r, color, fill } => {
                    if *fill {
                        DrawOp::CircleFill {
                            cx: *cx + self.x,
                            cy: *cy + self.y,
                            r: *r,
                            color: *color,
                        }
                    } else {
                        DrawOp::CircleOutline {
                            cx: *cx + self.x,
                            cy: *cy + self.y,
                            r: *r,
                            color: *color,
                        }
                    }
                },
                Shape::Text { tx, ty, color, text } => DrawOp::TextAt {
                    x: *tx + self.x,
                    y: *ty + self.y,
                    color: *color,
                    text: text.clone(),
                },
                Shape::BigText { tx, ty, color, text } => DrawOp::BigTextAt {
                    x: *tx + self.x,
                    y: *ty + self.y,
                    color: *color,
                    text: text.clone(),
                },
                Shape::SmallText { tx, ty, color, text } => DrawOp::SmallTextAt {
                    x: *tx + self.x,
                    y: *ty + self.y,
                    color: *color,
                    text: text.clone(),
                },
            };
            r.push(op);
            i += 1;
        }
        proof {
            assert(r@ =~= element_ops(*self));
        }
        r
    }

    /// Whether the point `(x, y)` lands in one of this element's shapes.
    pub fn intersects(&self, x: i32, y: i32) -> (r: bool)
        requires
            element_ok(*self),
            coord_ok(x as int),
            coord_ok(y as int),
        ensures
            r == element_hit(*self, x as int, y as int),
    {
        let mut i: usize = 0;
        while i < self.shapes.len()
            invariant
                element_ok(*self),
                coord_ok(x as int),
                coord_ok(y as int),
                i <= self.shapes@.len(),
                forall|q: int|
                    0 <= q < i ==> !point_in_shape(
                        #[trigger] self.shapes@[q],
                        self.x as int,
                        self.y as int,
                        x as int,
                        y as int,
                    ),
            decreases self.shapes@.len() - i,
        {
            let hit = match &self.shapes[i] {
                Shape::Rectangle { x1, y1, x2, y2, .. } => {
                    let ax1 = *x1 as i64 + self.x as i64;
                    let ax2 = *x2 as i64 + self.x as i64;
                    let ay1 = *y1 as i64 + self.y as i64;
                    let ay2 = *y2 as i64 + self.y as i64;
                    ax1 < x as i64 && (x as i64) < ax2 && ay1 < y as i64 && (y as i64) < ay2
                },
                Shape::Circle { cx, cy, r, .. } => {
                    let dx = *cx as i64 + self.x as i64 - x as i64;
                    let dy = *cy as i64 + self.y as i64 - y as i64;
                    let rr = *r as i64;
                    proof {
                        assert(shape_ok(self.shapes@[i as int]));
                        assert(-0x6000_0000 <= dx <= 0x6000_0000);
                        assert(-0x6000_0000 <= dy <= 0x6000_0000);
                        assert(dx * dx <= 0x2400_0000_0000_0000 && dx * dx >= 0) by (nonlinear_arith)
                            requires
                                -0x6000_0000 <= dx <= 0x6000_0000,
                        ;
                        assert(dy * dy <= 0x2400_0000_0000_0000 && dy * dy >= 0) by (nonlinear_arith)
                            requires
                                -0x6000_0000 <= dy <= 0x6000_0000,
                        ;
                        assert(rr * rr <= 0x2400_0000_0000_0000 && rr * rr >= 0) by (nonlinear_arith)
                            requires
                                -0x6000_0000 <= rr <= 0x6000_0000,
                        ;
                    }
                    dx * dx + dy * dy <= rr * rr
                },
                _ => false,
            };
            if hit {
                return true;
            }
            i += 1;
        }
        false
    }
}

/// A structure composing the drawable elements of the screen.
pub struct Display {
    elements: Vec<Element>,
}

/// The drawing calls a list of elements produces, in order.
pub open spec fn display_ops(elems: Seq<Element>) -> Seq<DrawOp>
    decreases elems.len(),
{
    if elems.len() == 0 {
        Seq::<DrawOp>::empty()
    } else {
        element_ops(elems[0]) + display_ops(elems.drop_first())
    }
}

/// Appending an element appends its drawing calls.
pub proof fn lemma_display_ops_snoc(elems: Seq<Element>, e: Element)
    ensures
        display_ops(elems.push(e)) == display_ops(elems) + element_ops(e),
    decreases elems.len(),
{
    let s = elems.push(e);
    if elems.len() == 0 {
        assert(s[0] == e);
        assert(s.drop_first() =~= Seq::<Element>::empty());
        assert(display_ops(s.drop_first()) =~= Seq::<DrawOp>::empty()) by {
            assert(s.drop_first().len() == 0);
        }
        assert(display_ops(s) =~= display_ops(elems) + element_ops(e));
    } else {
        assert(s[0] == elems[0]);
        assert(s.drop_first() =~= elems.drop_first().push(e));
        lemma_display_ops_snoc(elems.drop_first(), e);
        assert(display_ops(s) =~= display_ops(elems) + element_ops(e));
    }
}

impl Display {
    /// The elements of the display, in the order they were added.
    pub closed spec fn element_list(self) -> Seq<Element> {
        self.elements@
    }

    /// Every element stays within the coordinate range.
    pub open spec fn wf(self) -> bool {
        forall|i: int|
            0 <= i < self.element_list().len() ==> element_ok(#[trigger] self.element_list()[i])
    }

    /// Creates an empty display.
    pub fn new() -> (r: Display)
        ensures
            r.wf(),
            r.element_list().len() == 0,
    {
        Display { elements: Vec::new() }
    }

    /// Adds an element to the display.
    pub fn add(&mut self, element: Element)
        requires
            old(self).wf(),
            element_ok(element),
        ensures
            final(self).wf(),
            final(self).element_list() == old(self).element_list().push(element),
    {
        self.elements.push(element);
    }

    /// Removes every element.
    pub fn clear_elements(&mut self)
        ensures
            final(self).wf(),
            final(self).element_list().len() == 0,
    {
        self.elements.clear();
    }

    /// Removes every element; erasing the screen itself is the drawing
    /// caller's part.
    pub fn clear(&mut self)
        ensures
            final(self).wf(),
            final(self).element_list().len() == 0,
    {
        self.clear_elements();
    }

    /// The drawing calls of one frame: every element's calls, in order.
    pub fn draw_ops(&self) -> (r: Vec<DrawOp>)
        requires
            self.wf(),
        ensures
            r@ == display_ops(self.element_list()),
    {
        let mut r: Vec<DrawOp> = Vec::new();
        let mut i: usize = 0;
        while i < self.elements.len()
            invariant
                self.wf(),
                i <= self.element_list().len(),
                r@ == display_ops(self.element_list().subrange(0, i as int)),
            decreases self.element_list().len() - i,
        {
            let mut ops = self.elements[i].draw_ops();
            proof {
                lemma_display_ops_snoc(
                    self.element_list().subrange(0, i as int),
                    self.element_list()[i as int],
                );
                assert(self.element_list().subrange(0, i as int).push(
                    self.element_list()[i as int],
                ) =~= self.element_list().subrange(0, i as int + 1));
            }
            r.append(&mut ops);
            i += 1;
        }
        proof {
            assert(self.element_list().subrange(0, self.element_list().len() as int)
                =~= self.element_list());
        }
        r
    }

    /// Finds the element a touch at `(x, y)` lands in: the first one, in
    /// the order the elements were added, one of whose shapes contains
    /// the point.  The caller runs the handler registered under that
    /// element's tag.
    pub fn on_touch(&self, x: i32, y: i32) -> (r: Option<usize>)
        requires
            self.wf(),
            coord_ok(x as int),
            coord_ok(y as int),
        ensures
            match r {
                Some(i) => i < self.element_list().len() && element_hit(
                    self.element_list()[i as int],
                    x as int,
                    y as int,
                ) && forall|j: int|
                    0 <= j < i ==> !element_hit(
                        #[trigger] self.element_list()[j],
                        x as int,
                        y as int,
                    ),
                None => forall|j: int|
                    0 <= j < self.element_list().len() ==> !element_hit(
                        #[trigger] self.element_list()[j],
                        x as int,
                        y as int,
                    ),
            },
    {
        let mut i: usize = 0;
        while i < self.elements.len()
            invariant
                self.wf(),
                coord_ok(x as int),
                coord_ok(y as int),
                i <= self.element_list().len(),
                forall|j: int|
                    0 <= j < i ==> !element_hit(
                        #[trigger] self.element_list()[j],
                        x as int,
                        y as int,
                    ),
            decreases self.element_list().len() - i,
        {
            if self.elements[i].intersects(x, y) {
                return Some(i);
            }
            i += 1;
        }
        None
    }
}

} // verus!
