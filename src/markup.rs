//! SVG markup of a composed document: the text of its attributes, and
//! its elements, written out through the svg crate.

use crate::geo::PixelPoint;
use crate::image::{opt_view, Document, ImageMap, Primitive, PrimitiveView, ViewBox};
use crate::svg_out::{attrs_view, children_view, svg_markup, svg_text};
use crate::text::{decimal, decimal_string, fixed_string, fixed_text, push_fixed};
use vstd::prelude::*;

verus! {

/// The text of an SVG point list: "x y" for each point, separated by spaces.
pub open spec fn points_text(ps: Seq<PixelPoint>) -> Seq<char>
    decreases ps.len(),
{
    if ps.len() == 0 {
        seq![]
    } else {
        let sep: Seq<char> = if ps.len() == 1 {
            seq![]
        } else {
            seq![' ']
        };
        points_text(ps.drop_last()) + sep + fixed_text(ps.last().x as nat) + seq![' '] + fixed_text(
            ps.last().y as nat,
        )
    }
}

/// The text of a point: "x y".
pub open spec fn point_text(p: PixelPoint) -> Seq<char> {
    fixed_text(p.x as nat) + seq![' '] + fixed_text(p.y as nat)
}

/// A ring's outline without its closing: "M x y", then " L x y" for each
/// further point.
pub open spec fn ring_outline(ps: Seq<PixelPoint>) -> Seq<char>
    decreases ps.len(),
{
    if ps.len() == 0 {
        seq![]
    } else if ps.len() == 1 {
        seq!['M', ' '] + point_text(ps[0])
    } else {
        ring_outline(ps.drop_last()) + seq![' ', 'L', ' '] + point_text(ps.last())
    }
}

/// A closed ring of SVG path data; an empty ring draws nothing.
pub open spec fn ring_text(ps: Seq<PixelPoint>) -> Seq<char> {
    if ps.len() == 0 {
        seq![]
    } else {
        ring_outline(ps) + seq![' ', 'Z']
    }
}

/// The SVG path data of closed rings, separated by spaces.
pub open spec fn path_text(rings: Seq<Seq<PixelPoint>>) -> Seq<char>
    decreases rings.len(),
{
    if rings.len() == 0 {
        seq![]
    } else if rings.len() == 1 {
        ring_text(rings[0])
    } else {
        path_text(rings.drop_last()) + seq![' '] + ring_text(rings.last())
    }
}

fn push_ring(out: &mut String, ring: &Vec<PixelPoint>)
    ensures
        final(out)@ == old(out)@ + ring_text(ring@),
{
    let ghost start = old(out)@;
    let mut i: usize = 0;
    while i < ring.len()
        invariant
            i <= ring@.len(),
            out@ == start + ring_outline(ring@.take(i as int)),
        decreases ring@.len() - i,
    {
        proof {
            reveal_strlit("M ");
            reveal_strlit(" L ");
            reveal_strlit(" ");
        }
        if i == 0 {
            out.append("M ");
        } else {
            out.append(" L ");
        }
        push_fixed(out, ring[i].x);
        out.append(" ");
        push_fixed(out, ring[i].y);
        i = i + 1;
        assert(ring@.take(i as int).drop_last() =~= ring@.take(i - 1));
        assert(ring@.take(i as int).last() == ring@[i - 1]);
        if i == 1 {
            assert(ring@.take(1).len() == 1);
            assert(ring@.take(1)[0] == ring@[0]);
        }
        assert(out@ =~= start + ring_outline(ring@.take(i as int)));
    }
    assert(ring@.take(i as int) =~= ring@);
    if ring.len() > 0 {
        out.append(" Z");
        proof {
            reveal_strlit(" Z");
        }
    }
    assert(out@ =~= start + ring_text(ring@));
}

/// The `d` attribute of a path of closed rings.
pub fn path_attribute(rings: &Vec<Vec<PixelPoint>>) -> (r: String)
    ensures
        r@ == path_text(rings@.map_values(|v: Vec<PixelPoint>| v@)),
{
    let ghost rv = rings@.map_values(|v: Vec<PixelPoint>| v@);
    let mut s = String::new();
    let mut i: usize = 0;
    while i < rings.len()
        invariant
            rv == rings@.map_values(|v: Vec<PixelPoint>| v@),
            i <= rings@.len(),
            s@ == path_text(rv.take(i as int)),
        decreases rings@.len() - i,
    {
        if i > 0 {
            s.append(" ");
            proof {
                reveal_strlit(" ");
            }
        }
        push_ring(&mut s, &rings[i]);
        i = i + 1;
        assert(rv.take(i as int).drop_last() =~= rv.take(i - 1));
        assert(rv.take(i as int).last() == rings@[i - 1]@);
        assert(s@ =~= path_text(rv.take(i as int)));
    }
    assert(rv.take(i as int) =~= rv);
    s
}

/// The text of an SVG view box: "x y width height".
pub open spec fn view_box_text(v: ViewBox) -> Seq<char> {
    fixed_text(v.x as nat) + seq![' '] + fixed_text(v.y as nat) + seq![' '] + fixed_text(
        v.width as nat,
    ) + seq![' '] + fixed_text(v.height as nat)
}

/// The `points` attribute of a polyline through `points`.
pub fn points_attribute(points: &Vec<PixelPoint>) -> (r: String)
    ensures
        r@ == points_text(points@),
{
    let mut s = String::new();
    let mut i: usize = 0;
    while i < points.len()
        invariant
            i <= points@.len(),
            s@ == points_text(points@.take(i as int)),
        decreases points@.len() - i,
    {
        if i > 0 {
            s.append(" ");
        }
        push_fixed(&mut s, points[i].x);
        s.append(" ");
        push_fixed(&mut s, points[i].y);
        proof {
            reveal_strlit(" ");
        }
        i = i + 1;
        assert(points@.take(i as int).drop_last() =~= points@.take(i - 1));
        assert(s@ =~= points_text(points@.take(i as int)));
    }
    assert(points@.take(i as int) =~= points@);
    s
}

/// The `viewBox` attribute of `v`.
pub fn view_box_attribute(v: &ViewBox) -> (r: String)
    ensures
        r@ == view_box_text(*v),
{
    let mut s = String::new();
    push_fixed(&mut s, v.x);
    s.append(" ");
    push_fixed(&mut s, v.y);
    s.append(" ");
    push_fixed(&mut s, v.width);
    s.append(" ");
    push_fixed(&mut s, v.height);
    proof {
        reveal_strlit(" ");
    }
    assert(s@ =~= view_box_text(*v));
    s
}

/// The attributes a stroke adds: its colour and its width, where set.
pub open spec fn stroke_attrs(color: Option<Seq<char>>, width: Option<usize>) -> Seq<
    (Seq<char>, Seq<char>),
> {
    (match color {
        Some(c) => seq![("stroke"@, c)],
        None => Seq::empty(),
    }) + (match width {
        Some(w) => seq![("stroke-width"@, decimal(w as nat))],
        None => Seq::empty(),
    })
}

/// The fill of a shape: its colour, or none.
pub open spec fn fill_value(fill: Option<Seq<char>>) -> Seq<char> {
    match fill {
        Some(f) => f,
        None => "none"@,
    }
}

/// The SVG element that draws a primitive: its tag and its attributes, in
/// pixels.
pub open spec fn element_spec(p: PrimitiveView) -> (Seq<char>, Seq<(Seq<char>, Seq<char>)>) {
    match p {
        PrimitiveView::Image { x, y, size, href } => (
            "image"@,
            seq![
                ("x"@, fixed_text(x as nat)),
                ("y"@, fixed_text(y as nat)),
                ("width"@, fixed_text(size as nat)),
                ("height"@, fixed_text(size as nat)),
                ("href"@, href),
            ],
        ),
        PrimitiveView::Polyline { points, color, width } => (
            "polyline"@,
            seq![("fill"@, "none"@)] + stroke_attrs(color, width) + seq![
                ("points"@, points_text(points)),
            ],
        ),
        PrimitiveView::Rect { area, color, width } => (
            "rect"@,
            seq![("fill"@, "none"@)] + stroke_attrs(color, width) + seq![
                ("x"@, fixed_text(area.x as nat)),
                ("y"@, fixed_text(area.y as nat)),
                ("width"@, fixed_text(area.width as nat)),
                ("height"@, fixed_text(area.height as nat)),
            ],
        ),
        PrimitiveView::Circle { center, radius, color, width, fill } => (
            "circle"@,
            seq![("fill"@, fill_value(fill))] + stroke_attrs(color, width) + seq![
                ("cx"@, fixed_text(center.x as nat)),
                ("cy"@, fixed_text(center.y as nat)),
                ("r"@, fixed_text(radius as nat)),
            ],
        ),
        PrimitiveView::Path { rings, color, width, fill } => (
            "path"@,
            seq![("fill"@, fill_value(fill)), ("fill-rule"@, "nonzero"@)] + stroke_attrs(
                color,
                width,
            ) + seq![("d"@, path_text(rings))],
        ),
    }
}

fn push_attr(attrs: &mut Vec<(String, String)>, name: &str, value: String)
    ensures
        attrs_view(final(attrs)@) == attrs_view(old(attrs)@).push((name@, value@)),
{
    attrs.push((String::from_str(name), value));
    assert(attrs_view(final(attrs)@) =~= attrs_view(old(attrs)@).push((name@, value@)));
}

fn push_stroke(attrs: &mut Vec<(String, String)>, color: &Option<String>, width: Option<usize>)
    ensures
        attrs_view(final(attrs)@) == attrs_view(old(attrs)@) + stroke_attrs(opt_view(*color), width),
{
    let ghost start = attrs_view(old(attrs)@);
    match color {
        Some(c) => push_attr(attrs, "stroke", c.clone()),
        None => {},
    }
    let ghost mid = attrs_view(attrs@);
    match width {
        Some(w) => push_attr(attrs, "stroke-width", decimal_string(w as u64)),
        None => {},
    }
    assert(attrs_view(attrs@) =~= start + stroke_attrs(opt_view(*color), width));
}

fn fill_string(fill: &Option<String>) -> (r: String)
    ensures
        r@ == fill_value(opt_view(*fill)),
{
    match fill {
        Some(f) => f.clone(),
        None => String::from_str("none"),
    }
}

/// The SVG element that draws `p`: its tag and its attributes.
pub fn element_of(p: &Primitive) -> (r: (String, Vec<(String, String)>))
    ensures
        (r.0@, attrs_view(r.1@)) == element_spec(p@),
{
    let mut a: Vec<(String, String)> = Vec::new();
    let ghost e: Seq<(Seq<char>, Seq<char>)> = Seq::empty();
    assert(attrs_view(a@) =~= e);
    match p {
        Primitive::Image { x, y, size, href } => {
            push_attr(&mut a, "x", fixed_string(*x));
            push_attr(&mut a, "y", fixed_string(*y));
            push_attr(&mut a, "width", fixed_string(*size));
            push_attr(&mut a, "height", fixed_string(*size));
            push_attr(&mut a, "href", href.clone());
            assert(attrs_view(a@) =~= element_spec(p@).1);
            (String::from_str("image"), a)
        },
        Primitive::Polyline { points, color, width } => {
            push_attr(&mut a, "fill", String::from_str("none"));
            push_stroke(&mut a, color, *width);
            push_attr(&mut a, "points", points_attribute(points));
            assert(attrs_view(a@) =~= element_spec(p@).1);
            (String::from_str("polyline"), a)
        },
        Primitive::Rect { area, color, width } => {
            push_attr(&mut a, "fill", String::from_str("none"));
            push_stroke(&mut a, color, *width);
            push_attr(&mut a, "x", fixed_string(area.x));
            push_attr(&mut a, "y", fixed_string(area.y));
            push_attr(&mut a, "width", fixed_string(area.width));
            push_attr(&mut a, "height", fixed_string(area.height));
            assert(attrs_view(a@) =~= element_spec(p@).1);
            (String::from_str("rect"), a)
        },
        Primitive::Circle { center, radius, color, width, fill } => {
            push_attr(&mut a, "fill", fill_string(fill));
            push_stroke(&mut a, color, *width);
            push_attr(&mut a, "cx", fixed_string(center.x));
            push_attr(&mut a, "cy", fixed_string(center.y));
            push_attr(&mut a, "r", fixed_string(*radius));
            assert(attrs_view(a@) =~= element_spec(p@).1);
            (String::from_str("circle"), a)
        },
        Primitive::Path { rings, color, width, fill } => {
            push_attr(&mut a, "fill", fill_string(fill));
            push_attr(&mut a, "fill-rule", String::from_str("nonzero"));
            push_stroke(&mut a, color, *width);
            push_attr(&mut a, "d", path_attribute(rings));
            assert(attrs_view(a@) =~= element_spec(p@).1);
            (String::from_str("path"), a)
        },
    }
}

/// The SVG markup of a document whose view box and primitives have these
/// views.
pub open spec fn document_markup(view_box: ViewBox, primitives: Seq<PrimitiveView>) -> Seq<char> {
    svg_markup(
        view_box_text(view_box),
        primitives.map_values(|p: PrimitiveView| element_spec(p)),
    )
}

impl Document {
    /// The SVG markup of the document: an `svg` element whose `viewBox` is
    /// the view box, with one child per primitive, in draw order.
    pub fn to_svg(&self) -> (r: String)
        ensures
            r@ == document_markup(self@.view_box, self@.primitives),
    {
        let mut children: Vec<(String, Vec<(String, String)>)> = Vec::new();
        let mut i: usize = 0;
        while i < self.primitives.len()
            invariant
                i <= self.primitives@.len(),
                children@.len() == i,
                forall|k: int|
                    0 <= k < i ==> (#[trigger] children@[k].0@, attrs_view(children@[k].1@))
                        == element_spec(self.primitives@[k]@),
            decreases self.primitives@.len() - i,
        {
            children.push(element_of(&self.primitives[i]));
            i = i + 1;
        }
        let view_box = view_box_attribute(&self.view_box);
        assert(children_view(children@) =~= self@.primitives.map_values(
            |p: PrimitiveView| element_spec(p),
        ));
        svg_text(view_box.as_str(), &children)
    }
}

impl ImageMap {
    /// The SVG markup of the composed map.
    pub fn export_svg(&self) -> (r: String)
        requires
            self.wf(),
        ensures
            r@ == document_markup(self.document_spec().view_box, self.document_spec().primitives),
    {
        self.document().to_svg()
    }
}

} // verus!
