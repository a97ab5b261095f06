//! The call into the svg crate that writes a composed document out.

use svg::node::element::{Element, SVG};
use svg::node::Node;
use vstd::prelude::*;

verus! {

/// The views of an element's attributes, names with values, in order.
pub open spec fn attrs_view(a: Seq<(String, String)>) -> Seq<(Seq<char>, Seq<char>)> {
    a.map_values(|p: (String, String)| (p.0@, p.1@))
}

/// The views of elements: each tag with its attributes.
pub open spec fn children_view(c: Seq<(String, Vec<(String, String)>)>) -> Seq<
    (Seq<char>, Seq<(Seq<char>, Seq<char>)>),
> {
    c.map_values(|e: (String, Vec<(String, String)>)| (e.0@, attrs_view(e.1@)))
}

/// The markup that svg writes for a document with this `viewBox` and these
/// child elements, each a tag with its attributes.
pub uninterp spec fn svg_markup(
    view_box: Seq<char>,
    children: Seq<(Seq<char>, Seq<(Seq<char>, Seq<char>)>)>,
) -> Seq<char>;

/// Relies on svg's `Document::new`, `Element::new`, `Node::assign`,
/// `Node::append` and `Display`: the markup of an `svg` root with this
/// `viewBox` and these elements, in order. svg writes an element's attributes
/// sorted by name and its children in order, so the markup depends on the
/// tags, attributes and order alone.
#[verifier::external_body]
pub(crate) fn svg_text(view_box: &str, children: &Vec<(String, Vec<(String, String)>)>) -> (r: String)
    ensures
        r@ == svg_markup(view_box@, children_view(children@)),
{
    let mut doc = SVG::new();
    doc.assign("viewBox", view_box);
    for (name, attributes) in children {
        let mut el = Element::new(name.as_str());
        for (key, value) in attributes {
            el.assign(key.as_str(), value.as_str());
        }
        doc.append(el);
    }
    doc.to_string()
}

} // verus!
