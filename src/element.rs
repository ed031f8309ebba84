//! One SVG element per drawing primitive. Coordinates and lengths are held
//! in thousandths of a device unit and written with three decimals.
use vstd::prelude::*;
use crate::color::{css_color, push_color};
use crate::number::{fixed3, push_fixed3, push_fixed3_mag, push_fixed3_negated};
use crate::text::{escape_text, push_escaped, push_str};

verus! {

/// A point of the device's space, y growing downward, in thousandths of a
/// device unit.
#[derive(Clone, Copy, Debug, PartialEq, Eq, Structural)]
pub struct Point {
    pub x: i64,
    pub y: i64,
}

impl Point {
    pub fn new(x: i64, y: i64) -> (p: Point)
        ensures
            p.x == x,
            p.y == y,
    {
        Point { x, y }
    }
}

/// What every drawing call carries besides its geometry: the packed stroke
/// and fill colors, and the line width in thousandths of a device unit.
#[derive(Clone, Copy, Debug, PartialEq, Eq, Structural)]
pub struct GraphicsContext {
    pub col: i32,
    pub fill: i32,
    pub lwd: u64,
}

impl GraphicsContext {
    pub fn new(col: i32, fill: i32, lwd: u64) -> (gc: GraphicsContext)
        ensures
            gc.col == col,
            gc.fill == fill,
            gc.lwd == lwd,
    {
        GraphicsContext { col, fill, lwd }
    }
}

pub open spec fn stroke_of(gc: GraphicsContext) -> Seq<char> {
    css_color(gc.col as u32)
}

pub open spec fn fill_of(gc: GraphicsContext) -> Seq<char> {
    css_color(gc.fill as u32)
}

/// `<circle cx=".." cy=".." r=".." stroke=".." fill=".." />`
pub open spec fn circle_text(center: Point, r: int, gc: GraphicsContext) -> Seq<char> {
    "<circle cx=\""@ + fixed3(center.x as int) + "\" cy=\""@ + fixed3(center.y as int) + "\" r=\""@
        + fixed3(r) + "\" stroke=\""@ + stroke_of(gc) + "\" fill=\""@ + fill_of(gc) + "\" />"@
}

/// A circle, stroked and filled with the context's colors.
pub fn circle_element(center: Point, r: i64, gc: GraphicsContext) -> (s: String)
    ensures
        s@ == circle_text(center, r as int, gc),
{
    let mut s = String::new();
    push_str(&mut s, "<circle cx=\"");
    push_fixed3(&mut s, center.x);
    push_str(&mut s, "\" cy=\"");
    push_fixed3(&mut s, center.y);
    push_str(&mut s, "\" r=\"");
    push_fixed3(&mut s, r);
    push_str(&mut s, "\" stroke=\"");
    push_color(&mut s, gc.col);
    push_str(&mut s, "\" fill=\"");
    push_color(&mut s, gc.fill);
    push_str(&mut s, "\" />");
    assert(s@ =~= circle_text(center, r as int, gc));
    s
}

/// `<line x1=".." y1=".." x2=".." y2=".." stroke=".." fill="none" />`
pub open spec fn line_text(from: Point, to: Point, gc: GraphicsContext) -> Seq<char> {
    "<line x1=\""@ + fixed3(from.x as int) + "\" y1=\""@ + fixed3(from.y as int) + "\" x2=\""@
        + fixed3(to.x as int) + "\" y2=\""@ + fixed3(to.y as int) + "\" stroke=\""@ + stroke_of(gc)
        + "\" fill=\"none\" />"@
}

/// A line segment; a line is never filled.
pub fn line_element(from: Point, to: Point, gc: GraphicsContext) -> (s: String)
    ensures
        s@ == line_text(from, to, gc),
{
    let mut s = String::new();
    push_str(&mut s, "<line x1=\"");
    push_fixed3(&mut s, from.x);
    push_str(&mut s, "\" y1=\"");
    push_fixed3(&mut s, from.y);
    push_str(&mut s, "\" x2=\"");
    push_fixed3(&mut s, to.x);
    push_str(&mut s, "\" y2=\"");
    push_fixed3(&mut s, to.y);
    push_str(&mut s, "\" stroke=\"");
    push_color(&mut s, gc.col);
    push_str(&mut s, "\" fill=\"none\" />");
    assert(s@ =~= line_text(from, to, gc));
    s
}

/// `x,y` of one point.
pub open spec fn point_pair(p: Point) -> Seq<char> {
    fixed3(p.x as int).push(',') + fixed3(p.y as int)
}

/// The points of a polyline or polygon, `x,y` each, separated by single
/// spaces; no points give the empty text.
pub open spec fn points_text(ps: Seq<Point>) -> Seq<char>
    decreases ps.len(),
{
    if ps.len() == 0 {
        seq![]
    } else if ps.len() == 1 {
        point_pair(ps[0])
    } else {
        points_text(ps.drop_last()).push(' ') + point_pair(ps.last())
    }
}

/// Appends the points' text.
fn push_points(s: &mut String, ps: &Vec<Point>)
    ensures
        final(s)@ == old(s)@ + points_text(ps@),
{
    let ghost start = s@;
    let n = ps.len();
    for i in 0..n
        invariant
            n == ps@.len(),
            s@ == start + points_text(ps@.take(i as int)),
    {
        if i > 0 {
            s.push(' ');
        }
        push_fixed3(s, ps[i].x);
        s.push(',');
        push_fixed3(s, ps[i].y);
        proof {
            assert(ps@.take(i + 1).drop_last() =~= ps@.take(i as int));
            assert(s@ =~= start + points_text(ps@.take(i + 1)));
        }
    }
    assert(ps@.take(n as int) =~= ps@);
}

/// `<polyline points=".." stroke=".." fill="none" />`
pub open spec fn polyline_text(ps: Seq<Point>, gc: GraphicsContext) -> Seq<char> {
    "<polyline points=\""@ + points_text(ps) + "\" stroke=\""@ + stroke_of(gc)
        + "\" fill=\"none\" />"@
}

/// An open polyline through the points; it is never filled. With no points
/// the `points` attribute is empty.
pub fn polyline_element(ps: &Vec<Point>, gc: GraphicsContext) -> (s: String)
    ensures
        s@ == polyline_text(ps@, gc),
{
    let mut s = String::new();
    push_str(&mut s, "<polyline points=\"");
    push_points(&mut s, ps);
    push_str(&mut s, "\" stroke=\"");
    push_color(&mut s, gc.col);
    push_str(&mut s, "\" fill=\"none\" />");
    assert(s@ =~= polyline_text(ps@, gc));
    s
}

/// `<polygon points=".." stroke=".." fill=".." />`
pub open spec fn polygon_text(ps: Seq<Point>, gc: GraphicsContext) -> Seq<char> {
    "<polygon points=\""@ + points_text(ps) + "\" stroke=\""@ + stroke_of(gc) + "\" fill=\""@
        + fill_of(gc) + "\" />"@
}

/// A closed polygon through the points, stroked and filled. With no points
/// the `points` attribute is empty.
pub fn polygon_element(ps: &Vec<Point>, gc: GraphicsContext) -> (s: String)
    ensures
        s@ == polygon_text(ps@, gc),
{
    let mut s = String::new();
    push_str(&mut s, "<polygon points=\"");
    push_points(&mut s, ps);
    push_str(&mut s, "\" stroke=\"");
    push_color(&mut s, gc.col);
    push_str(&mut s, "\" fill=\"");
    push_color(&mut s, gc.fill);
    push_str(&mut s, "\" />");
    assert(s@ =~= polygon_text(ps@, gc));
    s
}

pub open spec fn min(a: int, b: int) -> int {
    if a <= b { a } else { b }
}

pub open spec fn abs_diff(a: int, b: int) -> int {
    if a <= b { b - a } else { a - b }
}

/// `<rect x=".." y=".." width=".." height=".." stroke=".." fill=".." />`,
/// whichever two opposite corners are given.
pub open spec fn rect_text(from: Point, to: Point, gc: GraphicsContext) -> Seq<char> {
    "<rect x=\""@ + fixed3(min(from.x as int, to.x as int)) + "\" y=\""@ + fixed3(
        min(from.y as int, to.y as int),
    ) + "\" width=\""@ + fixed3(abs_diff(from.x as int, to.x as int)) + "\" height=\""@ + fixed3(
        abs_diff(from.y as int, to.y as int),
    ) + "\" stroke=\""@ + stroke_of(gc) + "\" fill=\""@ + fill_of(gc) + "\" />"@
}

/// The distance between two coordinates, which always fits in a `u64`.
fn distance(a: i64, b: i64) -> (d: u64)
    ensures
        d == abs_diff(a as int, b as int),
{
    if a <= b {
        ((b as i128) - (a as i128)) as u64
    } else {
        ((a as i128) - (b as i128)) as u64
    }
}

/// An axis-aligned rectangle with the opposite corners `from` and `to`.
pub fn rect_element(from: Point, to: Point, gc: GraphicsContext) -> (s: String)
    ensures
        s@ == rect_text(from, to, gc),
{
    let x = if from.x <= to.x { from.x } else { to.x };
    let y = if from.y <= to.y { from.y } else { to.y };
    let mut s = String::new();
    push_str(&mut s, "<rect x=\"");
    push_fixed3(&mut s, x);
    push_str(&mut s, "\" y=\"");
    push_fixed3(&mut s, y);
    push_str(&mut s, "\" width=\"");
    push_fixed3_mag(&mut s, distance(from.x, to.x));
    push_str(&mut s, "\" height=\"");
    push_fixed3_mag(&mut s, distance(from.y, to.y));
    push_str(&mut s, "\" stroke=\"");
    push_color(&mut s, gc.col);
    push_str(&mut s, "\" fill=\"");
    push_color(&mut s, gc.fill);
    push_str(&mut s, "\" />");
    assert(s@ =~= rect_text(from, to, gc));
    s
}

/// `<text x=".." y=".." transform="rotate(R, x, y)" fill="..">content</text>`
/// where `R` is the angle negated: the angle turns counter-clockwise, SVG's
/// rotation clockwise.
pub open spec fn text_text(pos: Point, t: Seq<char>, angle: int, gc: GraphicsContext) -> Seq<
    char,
> {
    "<text x=\""@ + fixed3(pos.x as int) + "\" y=\""@ + fixed3(pos.y as int)
        + "\" transform=\"rotate("@ + fixed3(-angle) + ", "@ + fixed3(pos.x as int) + ", "@
        + fixed3(pos.y as int) + ")\" fill=\""@ + stroke_of(gc) + "\">"@ + escape_text(t)
        + "</text>"@
}

/// A string drawn at `pos`, turned by `angle` thousandths of a degree
/// counter-clockwise, in the context's stroke color. The content is escaped;
/// the horizontal adjustment `_hadj` does not change the output.
pub fn text_element(pos: Point, t: &str, angle: i64, _hadj: i64, gc: GraphicsContext) -> (s:
    String)
    ensures
        s@ == text_text(pos, t@, angle as int, gc),
{
    let mut s = String::new();
    push_str(&mut s, "<text x=\"");
    push_fixed3(&mut s, pos.x);
    push_str(&mut s, "\" y=\"");
    push_fixed3(&mut s, pos.y);
    push_str(&mut s, "\" transform=\"rotate(");
    push_fixed3_negated(&mut s, angle);
    push_str(&mut s, ", ");
    push_fixed3(&mut s, pos.x);
    push_str(&mut s, ", ");
    push_fixed3(&mut s, pos.y);
    push_str(&mut s, ")\" fill=\"");
    push_color(&mut s, gc.col);
    push_str(&mut s, "\">");
    push_escaped(&mut s, t);
    push_str(&mut s, "</text>");
    assert(s@ =~= text_text(pos, t@, angle as int, gc));
    s
}

/// `x y` of one point.
pub open spec fn point_xy(p: Point) -> Seq<char> {
    fixed3(p.x as int).push(' ') + fixed3(p.y as int)
}

/// ` L x y` for each point.
pub open spec fn line_tos(ps: Seq<Point>) -> Seq<char>
    decreases ps.len(),
{
    if ps.len() == 0 {
        seq![]
    } else {
        line_tos(ps.drop_last()) + " L "@ + point_xy(ps.last())
    }
}

/// The block of one non-empty contour: a move to its first point, a line
/// to each of the others, and a close.
pub open spec fn subpath_block(ps: Seq<Point>) -> Seq<char> {
    "M "@ + point_xy(ps[0]) + line_tos(ps.drop_first()) + " Z"@
}

/// The `d` attribute of a path: the blocks of its non-empty contours, in
/// order, separated by single spaces. An empty contour contributes nothing.
pub open spec fn path_data(sps: Seq<Seq<Point>>) -> Seq<char>
    decreases sps.len(),
{
    if sps.len() == 0 {
        seq![]
    } else {
        let prev = path_data(sps.drop_last());
        if sps.last().len() == 0 {
            prev
        } else if prev.len() == 0 {
            subpath_block(sps.last())
        } else {
            prev.push(' ') + subpath_block(sps.last())
        }
    }
}

/// The `fill-rule` that a winding flag selects.
pub open spec fn fill_rule_text(winding: bool) -> Seq<char> {
    if winding {
        "nonzero"@
    } else {
        "evenodd"@
    }
}

/// The stroke width in thousandths: the line width divided by 96, rounded
/// to the nearest, halves up.
pub open spec fn stroke_width(lwd: nat) -> nat {
    (lwd + 48) / 96
}

/// `<path d=".." stroke=".." stroke-width=".." fill-rule=".." fill=".." />`
pub open spec fn path_text(sps: Seq<Seq<Point>>, winding: bool, gc: GraphicsContext) -> Seq<
    char,
> {
    "<path d=\""@ + path_data(sps) + "\" stroke=\""@ + stroke_of(gc) + "\" stroke-width=\""@
        + fixed3(stroke_width(gc.lwd as nat) as int) + "\" fill-rule=\""@ + fill_rule_text(winding)
        + "\" fill=\""@ + fill_of(gc) + "\" />"@
}

/// The views of the contours of a path.
pub open spec fn contours(sps: Seq<Vec<Point>>) -> Seq<Seq<Point>> {
    sps.map_values(|v: Vec<Point>| v@)
}

/// The fill rule selected by `winding`: `nonzero` when set, else `evenodd`.
pub fn fill_rule(winding: bool) -> (r: &'static str)
    ensures
        r@ == fill_rule_text(winding),
        r@ == "nonzero"@ || r@ == "evenodd"@,
{
    if winding {
        "nonzero"
    } else {
        "evenodd"
    }
}

/// The line width `lwd` (thousandths) as a stroke width (thousandths).
pub fn stroke_width_of(lwd: u64) -> (w: u64)
    ensures
        w == stroke_width(lwd as nat),
{
    let q = lwd / 96;
    let r = lwd % 96;
    assert((lwd + 48) / 96 == if r >= 48 { q + 1 } else { q as int }) by (nonlinear_arith)
        requires
            q == lwd / 96,
            r == lwd % 96,
            lwd >= 0,
    ;
    if r >= 48 {
        q + 1
    } else {
        q
    }
}

/// Appends the block of one non-empty contour.
fn push_subpath(s: &mut String, ps: &Vec<Point>)
    requires
        ps@.len() > 0,
    ensures
        final(s)@ == old(s)@ + subpath_block(ps@),
{
    let ghost start = s@;
    push_str(s, "M ");
    push_fixed3(s, ps[0].x);
    s.push(' ');
    push_fixed3(s, ps[0].y);
    let ghost head = s@;
    let n = ps.len();
    for i in 1..n
        invariant
            n == ps@.len(),
            head == start + "M "@ + point_xy(ps@[0]),
            s@ == head + line_tos(ps@.subrange(1, i as int)),
    {
        push_str(s, " L ");
        push_fixed3(s, ps[i].x);
        s.push(' ');
        push_fixed3(s, ps[i].y);
        proof {
            assert(ps@.subrange(1, i + 1).drop_last() =~= ps@.subrange(1, i as int));
            assert(s@ =~= head + line_tos(ps@.subrange(1, i + 1)));
        }
    }
    push_str(s, " Z");
    assert(ps@.subrange(1, n as int) =~= ps@.drop_first());
    assert(final(s)@ =~= old(s)@ + subpath_block(ps@));
}

/// Appends the `d` attribute of a path.
fn push_path_data(s: &mut String, sps: &Vec<Vec<Point>>)
    ensures
        final(s)@ == old(s)@ + path_data(contours(sps@)),
{
    let ghost start = s@;
    let n = sps.len();
    let mut wrote = false;
    for i in 0..n
        invariant
            n == sps@.len(),
            s@ == start + path_data(contours(sps@).take(i as int)),
            wrote == (path_data(contours(sps@).take(i as int)).len() > 0),
    {
        let ghost prefix = contours(sps@).take(i as int);
        let ghost next = contours(sps@).take(i + 1);
        proof {
            assert(next.drop_last() =~= prefix);
            assert(next.last() == sps@[i as int]@);
        }
        if sps[i].len() > 0 {
            if wrote {
                s.push(' ');
            }
            push_subpath(s, &sps[i]);
            wrote = true;
            assert(s@ =~= start + path_data(next));
        }
    }
    assert(contours(sps@).take(n as int) =~= contours(sps@));
}

/// A filled path of one block per non-empty contour, with the fill rule
/// that `winding` selects and the stroke width of the context.
pub fn path_element(sps: &Vec<Vec<Point>>, winding: bool, gc: GraphicsContext) -> (s: String)
    ensures
        s@ == path_text(contours(sps@), winding, gc),
{
    let mut s = String::new();
    push_str(&mut s, "<path d=\"");
    push_path_data(&mut s, sps);
    push_str(&mut s, "\" stroke=\"");
    push_color(&mut s, gc.col);
    push_str(&mut s, "\" stroke-width=\"");
    push_fixed3_mag(&mut s, stroke_width_of(gc.lwd));
    push_str(&mut s, "\" fill-rule=\"");
    push_str(&mut s, fill_rule(winding));
    push_str(&mut s, "\" fill=\"");
    push_color(&mut s, gc.fill);
    push_str(&mut s, "\" />");
    assert(s@ =~= path_text(contours(sps@), winding, gc));
    s
}

/// A rectangle does not depend on which two opposite corners are given, nor
/// on their order.
pub proof fn lemma_rect_corner_independent(from: Point, to: Point, gc: GraphicsContext)
    ensures
        rect_text(from, to, gc) == rect_text(to, from, gc),
        rect_text(from, to, gc) == rect_text(Point { x: from.x, y: to.y }, Point { x: to.x, y: from.y }, gc),
{
}

/// A polyline or polygon with no points has an empty `points` attribute,
/// and a path with no contours an empty `d` attribute.
pub proof fn lemma_no_points(gc: GraphicsContext, winding: bool)
    ensures
        points_text(Seq::<Point>::empty()) == Seq::<char>::empty(),
        polyline_text(Seq::<Point>::empty(), gc) == "<polyline points=\""@ + "\" stroke=\""@
            + stroke_of(gc) + "\" fill=\"none\" />"@,
        polygon_text(Seq::<Point>::empty(), gc) == "<polygon points=\""@ + "\" stroke=\""@
            + stroke_of(gc) + "\" fill=\""@ + fill_of(gc) + "\" />"@,
        path_data(Seq::<Seq<Point>>::empty()) == Seq::<char>::empty(),
{
    let e = Seq::<char>::empty();
    assert("<polyline points=\""@ + e =~= "<polyline points=\""@);
    assert("<polygon points=\""@ + e =~= "<polygon points=\""@);
}

} // verus!
