//! The document: a canvas opened once with its size, any number of drawing
//! calls, each handing out one element line, and one close that hands out
//! the closing tag.
use vstd::prelude::*;
use crate::element::{
    circle_element, circle_text, contours, line_element, line_text, path_element, path_text,
    polygon_element, polygon_text, polyline_element, polyline_text, rect_element, rect_text,
    text_element, text_text, GraphicsContext, Point,
};
use crate::number::{push_signed_decimal, signed_decimal};
use crate::text::push_str;

verus! {

/// A drawing primitive with its geometry; lengths in thousandths.
pub enum Primitive {
    Circle { center: Point, r: i64 },
    Line { from: Point, to: Point },
    Polyline { points: Vec<Point> },
    Polygon { points: Vec<Point> },
    Rect { from: Point, to: Point },
    Text { pos: Point, text: String, angle: i64, hadj: i64 },
    Path { subpaths: Vec<Vec<Point>>, winding: bool },
}

/// The element line of a primitive drawn with the context `gc`.
pub open spec fn element_text(p: Primitive, gc: GraphicsContext) -> Seq<char> {
    match p {
        Primitive::Circle { center, r } => circle_text(center, r as int, gc),
        Primitive::Line { from, to } => line_text(from, to, gc),
        Primitive::Polyline { points } => polyline_text(points@, gc),
        Primitive::Polygon { points } => polygon_text(points@, gc),
        Primitive::Rect { from, to } => rect_text(from, to, gc),
        Primitive::Text { pos, text, angle, hadj } => text_text(pos, text@, angle as int, gc),
        Primitive::Path { subpaths, winding } => path_text(contours(subpaths@), winding, gc),
    }
}

/// The element line of `p` drawn with the context `gc`.
pub fn element(p: &Primitive, gc: GraphicsContext) -> (s: String)
    ensures
        s@ == element_text(*p, gc),
{
    match p {
        Primitive::Circle { center, r } => circle_element(*center, *r, gc),
        Primitive::Line { from, to } => line_element(*from, *to, gc),
        Primitive::Polyline { points } => polyline_element(points, gc),
        Primitive::Polygon { points } => polygon_element(points, gc),
        Primitive::Rect { from, to } => rect_element(*from, *to, gc),
        Primitive::Text { pos, text, angle, hadj } => text_element(
            *pos,
            text.as_str(),
            *angle,
            *hadj,
            gc,
        ),
        Primitive::Path { subpaths, winding } => path_element(subpaths, *winding, gc),
    }
}

/// The opening tag of a document `w` by `h` points.
pub open spec fn header_text(w: int, h: int) -> Seq<char> {
    "<svg xmlns=\"http://www.w3.org/2000/svg\" viewBox=\"0 0 "@ + signed_decimal(w) + " "@
        + signed_decimal(h) + "\" width=\""@ + signed_decimal(w) + "\" height=\""@
        + signed_decimal(h) + "\">"@
}

/// The closing tag of a document.
pub open spec fn footer_text() -> Seq<char> {
    "</svg>"@
}

/// Points per inch.
pub const POINTS_PER_INCH: i64 = 72;

/// The opening tag of a document `width_pt` by `height_pt` points.
pub fn header_line(width_pt: i64, height_pt: i64) -> (s: String)
    ensures
        s@ == header_text(width_pt as int, height_pt as int),
{
    let mut s = String::new();
    push_str(&mut s, "<svg xmlns=\"http://www.w3.org/2000/svg\" viewBox=\"0 0 ");
    push_signed_decimal(&mut s, width_pt);
    push_str(&mut s, " ");
    push_signed_decimal(&mut s, height_pt);
    push_str(&mut s, "\" width=\"");
    push_signed_decimal(&mut s, width_pt);
    push_str(&mut s, "\" height=\"");
    push_signed_decimal(&mut s, height_pt);
    push_str(&mut s, "\">");
    assert(s@ =~= header_text(width_pt as int, height_pt as int));
    s
}

/// An open or closed canvas, with the lines it has handed out so far.
pub struct Canvas {
    width_pt: i64,
    height_pt: i64,
    closed: bool,
    written: Ghost<Seq<Seq<char>>>,
}

impl Canvas {
    /// The lines handed out so far, in order.
    pub closed spec fn lines(&self) -> Seq<Seq<char>> {
        self.written@
    }

    pub closed spec fn is_closed(&self) -> bool {
        self.closed
    }

    pub closed spec fn width(&self) -> int {
        self.width_pt as int
    }

    pub closed spec fn height(&self) -> int {
        self.height_pt as int
    }

    /// The first line is the opening tag, and a closed canvas's last line
    /// is the closing tag.
    pub open spec fn wf(&self) -> bool {
        &&& self.lines().len() >= 1
        &&& self.lines()[0] == header_text(self.width(), self.height())
        &&& self.is_closed() ==> self.lines().len() >= 2 && self.lines().last() == footer_text()
    }

    /// Opens a canvas `width_in` by `height_in` inches and hands out its
    /// opening tag, sized in points (72 per inch).
    pub fn open(width_in: i32, height_in: i32) -> (r: (Canvas, String))
        ensures
            r.0.wf(),
            !r.0.is_closed(),
            r.0.width() == width_in * 72,
            r.0.height() == height_in * 72,
            r.1@ == header_text(width_in * 72, height_in * 72),
            r.0.lines() == seq![r.1@],
    {
        let width_pt = (width_in as i64) * POINTS_PER_INCH;
        let height_pt = (height_in as i64) * POINTS_PER_INCH;
        let head = header_line(width_pt, height_pt);
        let ghost first = seq![head@];
        let canvas = Canvas {
            width_pt,
            height_pt,
            closed: false,
            written: Ghost(first),
        };
        (canvas, head)
    }

    /// Whether the canvas has been closed.
    pub fn closed(&self) -> (b: bool)
        ensures
            b == self.is_closed(),
    {
        self.closed
    }

    /// Hands out the element line of `p` drawn with `gc`; a closed canvas
    /// hands out nothing and stays as it is.
    pub fn draw(&mut self, p: &Primitive, gc: GraphicsContext) -> (r: Option<String>)
        requires
            old(self).wf(),
        ensures
            final(self).wf(),
            final(self).is_closed() == old(self).is_closed(),
            final(self).width() == old(self).width(),
            final(self).height() == old(self).height(),
            old(self).is_closed() ==> r is None && final(self).lines() == old(self).lines(),
            !old(self).is_closed() ==> r is Some && r->0@ == element_text(*p, gc)
                && final(self).lines() == old(self).lines().push(r->0@),
    {
        if self.closed {
            return None;
        }
        let s = element(p, gc);
        let ghost w = self.written@.push(s@);
        self.written = Ghost(w);
        Some(s)
    }

    /// Closes the canvas and hands out the closing tag; closing again
    /// hands out nothing and changes nothing.
    pub fn close(&mut self) -> (r: Option<String>)
        requires
            old(self).wf(),
        ensures
            final(self).wf(),
            final(self).is_closed(),
            final(self).width() == old(self).width(),
            final(self).height() == old(self).height(),
            old(self).is_closed() ==> r is None && final(self).lines() == old(self).lines(),
            !old(self).is_closed() ==> r is Some && r->0@ == footer_text()
                && final(self).lines() == old(self).lines().push(footer_text()),
    {
        if self.closed {
            return None;
        }
        let mut s = String::new();
        push_str(&mut s, "</svg>");
        self.closed = true;
        let ghost w = self.written@.push(s@);
        self.written = Ghost(w);
        Some(s)
    }
}

/// The views of a list of lines.
pub open spec fn line_views(v: Seq<String>) -> Seq<Seq<char>> {
    v.map_values(|s: String| s@)
}

/// The element lines of a sequence of drawing calls, in call order.
pub open spec fn elements_text(calls: Seq<(Primitive, GraphicsContext)>) -> Seq<Seq<char>> {
    calls.map_values(|c: (Primitive, GraphicsContext)| element_text(c.0, c.1))
}

/// The document of a canvas `w` by `h` points after the drawing calls
/// `calls` and a close.
pub open spec fn document(w: int, h: int, calls: Seq<(Primitive, GraphicsContext)>) -> Seq<
    Seq<char>,
> {
    seq![header_text(w, h)] + elements_text(calls) + seq![footer_text()]
}

/// The lines of a whole document: a canvas `width_in` by `height_in` inches,
/// the drawing calls in order, and the close.
pub fn render_document(width_in: i32, height_in: i32, calls: &Vec<(Primitive, GraphicsContext)>) -> (r:
    Vec<String>)
    ensures
        line_views(r@) == document(width_in * 72, height_in * 72, calls@),
{
    let (mut canvas, head) = Canvas::open(width_in, height_in);
    let mut out: Vec<String> = Vec::new();
    out.push(head);
    let n = calls.len();
    for i in 0..n
        invariant
            n == calls@.len(),
            canvas.wf(),
            !canvas.is_closed(),
            canvas.width() == width_in * 72,
            canvas.height() == height_in * 72,
            line_views(out@) == canvas.lines(),
            canvas.lines() == seq![header_text(width_in * 72, height_in * 72)] + elements_text(
                calls@.take(i as int),
            ),
    {
        let (p, gc) = (&calls[i].0, calls[i].1);
        let line = canvas.draw(p, gc);
        match line {
            Some(l) => {
                out.push(l);
            },
            None => {},
        }
        proof {
            assert(elements_text(calls@.take(i + 1)) =~= elements_text(calls@.take(i as int)).push(
                element_text(calls@[i as int].0, calls@[i as int].1),
            ));
            assert(line_views(out@) =~= canvas.lines());
        }
    }
    let last = canvas.close();
    match last {
        Some(l) => {
            out.push(l);
        },
        None => {},
    }
    proof {
        assert(calls@.take(n as int) =~= calls@);
        assert(line_views(out@) =~= canvas.lines());
        assert(canvas.lines() =~= document(width_in * 72, height_in * 72, calls@));
    }
    out
}

/// No element line is the closing tag: the second character of every line
/// but the closing tag is a letter.
pub proof fn lemma_element_not_footer(p: Primitive, gc: GraphicsContext)
    ensures
        element_text(p, gc) != footer_text(),
{
    reveal_strlit("</svg>");
    assert(footer_text()[1] == '/');
    match p {
        Primitive::Circle { center, r } => {
            reveal_strlit("<circle cx=\"");
            assert(element_text(p, gc)[1] == 'c');
        },
        Primitive::Line { from, to } => {
            reveal_strlit("<line x1=\"");
            assert(element_text(p, gc)[1] == 'l');
        },
        Primitive::Polyline { points } => {
            reveal_strlit("<polyline points=\"");
            assert(element_text(p, gc)[1] == 'p');
        },
        Primitive::Polygon { points } => {
            reveal_strlit("<polygon points=\"");
            assert(element_text(p, gc)[1] == 'p');
        },
        Primitive::Rect { from, to } => {
            reveal_strlit("<rect x=\"");
            assert(element_text(p, gc)[1] == 'r');
        },
        Primitive::Text { pos, text, angle, hadj } => {
            reveal_strlit("<text x=\"");
            assert(element_text(p, gc)[1] == 't');
        },
        Primitive::Path { subpaths, winding } => {
            reveal_strlit("<path d=\"");
            assert(element_text(p, gc)[1] == 'p');
        },
    }
}

/// A finished document starts with the opening tag sized in points (72 per
/// inch), holds one element line per drawing call in call order, and ends
/// with the closing tag, which stands nowhere else.
pub proof fn lemma_document_well_formed(
    width_in: i32,
    height_in: i32,
    calls: Seq<(Primitive, GraphicsContext)>,
)
    ensures
        document(width_in * 72, height_in * 72, calls).len() == calls.len() + 2,
        document(width_in * 72, height_in * 72, calls)[0] == header_text(width_in * 72, height_in * 72),
        document(width_in * 72, height_in * 72, calls).last() == footer_text(),
        forall|i: int|
            0 <= i < calls.len() ==> #[trigger] document(width_in * 72, height_in * 72, calls)[i + 1]
                == element_text(calls[i].0, calls[i].1),
        forall|j: int|
            0 <= j < calls.len() + 1 ==> #[trigger] document(width_in * 72, height_in * 72, calls)[j]
                != footer_text(),
{
    let w = width_in * 72;
    let h = height_in * 72;
    let d = document(w, h, calls);
    reveal_strlit("</svg>");
    reveal_strlit("<svg xmlns=\"http://www.w3.org/2000/svg\" viewBox=\"0 0 ");
    assert(header_text(w, h)[1] == 's');
    assert(footer_text()[1] == '/');
    assert forall|i: int| 0 <= i < calls.len() implies #[trigger] d[i + 1] == element_text(
        calls[i].0,
        calls[i].1,
    ) by {}
    assert forall|j: int| 0 <= j < calls.len() + 1 implies #[trigger] d[j] != footer_text() by {
        if j > 0 {
            lemma_element_not_footer(calls[j - 1].0, calls[j - 1].1);
        }
    }
}

} // verus!
