//! JavaScript text for the Google Maps API: a trait for values that render
//! as JavaScript, and a builder of object literals.

use crate::text::{decimal, push_decimal};
use vstd::prelude::*;

verus! {

/// A value with a JavaScript form.
pub trait JavaScript {
    /// The JavaScript text of the value.
    spec fn js(&self) -> Seq<char>;

    /// Appends the JavaScript text of the value to `out`.
    fn fmt_js(&self, out: &mut String)
        ensures
            final(out)@ == old(out)@ + self.js(),
    ;
}

/// The JavaScript text of a value, as a new string.
pub fn to_js<T: JavaScript>(value: &T) -> (r: String)
    ensures
        r@ == value.js(),
{
    let mut s = String::new();
    value.fmt_js(&mut s);
    assert(s@ =~= value.js());
    s
}

impl JavaScript for bool {
    open spec fn js(&self) -> Seq<char> {
        if *self {
            "true"@
        } else {
            "false"@
        }
    }

    fn fmt_js(&self, out: &mut String) {
        if *self {
            out.append("true");
        } else {
            out.append("false");
        }
    }
}

impl JavaScript for u8 {
    open spec fn js(&self) -> Seq<char> {
        decimal(*self as nat)
    }

    fn fmt_js(&self, out: &mut String) {
        push_decimal(out, *self as u128);
    }
}

impl JavaScript for usize {
    open spec fn js(&self) -> Seq<char> {
        decimal(*self as nat)
    }

    fn fmt_js(&self, out: &mut String) {
        push_decimal(out, *self as u128);
    }
}

impl JavaScript for isize {
    open spec fn js(&self) -> Seq<char> {
        if *self < 0 {
            "-"@ + decimal((-*self) as nat)
        } else {
            decimal(*self as nat)
        }
    }

    fn fmt_js(&self, out: &mut String) {
        if *self < 0 {
            out.append("-");
            let m: u64 = if *self == isize::MIN {
                (isize::MAX as u64) + 1
            } else {
                (-*self) as u64
            };
            push_decimal(out, m as u128);
        } else {
            push_decimal(out, *self as u128);
        }
    }
}

/// A string literal: the text between double quotes, as it is.
impl JavaScript for String {
    open spec fn js(&self) -> Seq<char> {
        "\""@ + self@ + "\""@
    }

    fn fmt_js(&self, out: &mut String) {
        out.append("\"");
        out.append(self.as_str());
        out.append("\"");
    }
}

/// The items' JavaScript texts, separated by ", ".
pub open spec fn js_items<T: JavaScript>(items: Seq<T>) -> Seq<char>
    decreases items.len(),
{
    if items.len() == 0 {
        seq![]
    } else if items.len() == 1 {
        items[0].js()
    } else {
        js_items(items.drop_last()) + ", "@ + items.last().js()
    }
}

/// An array literal.
impl<T: JavaScript> JavaScript for Vec<T> {
    open spec fn js(&self) -> Seq<char> {
        "["@ + js_items(self@) + "]"@
    }

    fn fmt_js(&self, out: &mut String) {
        let ghost start = old(out)@;
        out.append("[");
        let mut i: usize = 0;
        while i < self.len()
            invariant
                i <= self@.len(),
                out@ == start + "["@ + js_items(self@.take(i as int)),
            decreases self@.len() - i,
        {
            let ghost before = out@;
            if i > 0 {
                out.append(", ");
            }
            self[i].fmt_js(out);
            i = i + 1;
            assert(self@.take(i as int).drop_last() =~= self@.take(i - 1));
            if i == 1 {
                assert(self@.take(1).len() == 1);
                assert(js_items(self@.take(1)) == self@[0].js());
            }
            assert(out@ =~= start + "["@ + js_items(self@.take(i as int)));
        }
        assert(self@.take(i as int) =~= self@);
        out.append("]");
    }
}

/// The identifier under which the generated script keeps its map.
pub struct RawIdent {
    pub name: String,
}

/// An identifier: its name, as it is.
impl JavaScript for RawIdent {
    open spec fn js(&self) -> Seq<char> {
        self.name@
    }

    fn fmt_js(&self, out: &mut String) {
        out.append(self.name.as_str());
    }
}

/// The entries of an object literal, "key: value" each, separated by ", ".
pub open spec fn join_entries(entries: Seq<Seq<char>>) -> Seq<char>
    decreases entries.len(),
{
    if entries.len() == 0 {
        seq![]
    } else if entries.len() == 1 {
        entries[0]
    } else {
        join_entries(entries.drop_last()) + ", "@ + entries.last()
    }
}

/// The text of an object literal with these entries.
pub open spec fn object_text(entries: Seq<Seq<char>>) -> Seq<char> {
    "{ "@ + join_entries(entries) + " }"@
}

/// The text of one entry.
pub open spec fn entry_text(key: Seq<char>, value: Seq<char>) -> Seq<char> {
    key + ": "@ + value
}

/// A JavaScript object literal written entry by entry.
pub struct JavaScriptObject {
    out: String,
    pending_comma: bool,
    entries: Ghost<Seq<Seq<char>>>,
}

impl JavaScriptObject {
    /// The entries written so far.
    pub closed spec fn entries(self) -> Seq<Seq<char>> {
        self.entries@
    }

    pub closed spec fn wf(self) -> bool {
        &&& self.out@ == "{ "@ + join_entries(self.entries@)
        &&& self.pending_comma == (self.entries@.len() > 0)
    }

    /// An object with no entries yet.
    pub fn new() -> (r: JavaScriptObject)
        ensures
            r.wf(),
            r.entries() == Seq::<Seq<char>>::empty(),
    {
        let r = JavaScriptObject {
            out: String::from_str("{ "),
            pending_comma: false,
            entries: Ghost(Seq::empty()),
        };
        assert(r.out@ =~= "{ "@ + join_entries(r.entries@));
        r
    }

    /// Adds the entry `key: value`.
    pub fn entry<T: JavaScript>(&mut self, key: &str, value: &T)
        requires
            old(self).wf(),
        ensures
            final(self).wf(),
            final(self).entries() == old(self).entries().push(entry_text(key@, value.js())),
    {
        let ghost es = self.entries@;
        if self.pending_comma {
            self.out.append(", ");
        }
        self.out.append(key);
        self.out.append(": ");
        value.fmt_js(&mut self.out);
        self.entries = Ghost(es.push(entry_text(key@, value.js())));
        self.pending_comma = true;
        assert(es.push(entry_text(key@, value.js())).drop_last() =~= es);
        assert(self.out@ =~= "{ "@ + join_entries(self.entries@));
    }

    /// Adds the entry `key: value`, where `value` is JavaScript text already.
    pub fn raw_entry(&mut self, key: &str, value: &str)
        requires
            old(self).wf(),
        ensures
            final(self).wf(),
            final(self).entries() == old(self).entries().push(entry_text(key@, value@)),
    {
        let ghost es = self.entries@;
        if self.pending_comma {
            self.out.append(", ");
        }
        self.out.append(key);
        self.out.append(": ");
        self.out.append(value);
        self.entries = Ghost(es.push(entry_text(key@, value@)));
        self.pending_comma = true;
        assert(es.push(entry_text(key@, value@)).drop_last() =~= es);
        assert(self.out@ =~= "{ "@ + join_entries(self.entries@));
    }

    /// Adds the entry `key: value` if there is a value; else nothing.
    pub fn entry_opt<T: JavaScript>(&mut self, key: &str, value: &Option<T>)
        requires
            old(self).wf(),
        ensures
            final(self).wf(),
            final(self).entries() == match value {
                Some(v) => old(self).entries().push(entry_text(key@, v.js())),
                None => old(self).entries(),
            },
    {
        match value {
            Some(v) => self.entry(key, v),
            None => {},
        }
    }

    /// The text of the object.
    pub fn finish(self) -> (r: String)
        requires
            self.wf(),
        ensures
            r@ == object_text(self.entries()),
    {
        let mut s = self.out;
        s.append(" }");
        s
    }
}

/// The text `new google.maps.<class>(<object>)`.
pub open spec fn constructor_text(class: Seq<char>, entries: Seq<Seq<char>>) -> Seq<char> {
    "new google.maps."@ + class + "("@ + object_text(entries) + ")"@
}

/// A call of the Google Maps constructor `class` with an object literal.
pub fn constructor_call(class: &str, obj: JavaScriptObject) -> (r: String)
    requires
        obj.wf(),
    ensures
        r@ == constructor_text(class@, obj.entries()),
{
    let ghost entries = obj.entries();
    let mut s = String::from_str("new google.maps.");
    s.append(class);
    s.append("(");
    let body = obj.finish();
    s.append(body.as_str());
    s.append(")");
    assert(s@ =~= constructor_text(class@, entries));
    s
}

/// Each shape's statement: indented, ended by ";" and a new line.
pub open spec fn statements(shapes: Seq<Seq<char>>) -> Seq<char>
    decreases shapes.len(),
{
    if shapes.len() == 0 {
        seq![]
    } else {
        statements(shapes.drop_last()) + "\t\t"@ + shapes.last() + ";\n"@
    }
}

/// The views of a list of strings.
pub open spec fn views(v: Seq<String>) -> Seq<Seq<char>> {
    v.map_values(|s: String| s@)
}

/// The script that builds the map under `ident` in the page's map element,
/// then draws each shape.
pub open spec fn map_script_text(ident: Seq<char>, options: Seq<Seq<char>>, shapes: Seq<Seq<char>>) -> Seq<char> {
    "\t\tconst "@ + ident + " = new google.maps.Map(document.getElementById(\"map_canvas\"), "@
        + object_text(options) + ");\n\n"@ + statements(shapes)
}

/// The script of a map with these options and shapes, each shape's text
/// already written.
pub fn map_script(ident: &RawIdent, options: JavaScriptObject, shapes: &Vec<String>) -> (r: String)
    requires
        options.wf(),
    ensures
        r@ == map_script_text(ident.name@, options.entries(), views(shapes@)),
{
    let ghost entries = options.entries();
    let mut s = String::from_str("\t\tconst ");
    s.append(ident.name.as_str());
    s.append(" = new google.maps.Map(document.getElementById(\"map_canvas\"), ");
    let obj = options.finish();
    s.append(obj.as_str());
    s.append(");\n\n");
    let ghost head = s@;
    let mut i: usize = 0;
    while i < shapes.len()
        invariant
            i <= shapes@.len(),
            s@ == head + statements(views(shapes@).take(i as int)),
        decreases shapes@.len() - i,
    {
        s.append("\t\t");
        s.append(shapes[i].as_str());
        s.append(";\n");
        i = i + 1;
        assert(views(shapes@).take(i as int).drop_last() =~= views(shapes@).take(i - 1));
        assert(s@ =~= head + statements(views(shapes@).take(i as int)));
    }
    assert(views(shapes@).take(i as int) =~= views(shapes@));
    assert(s@ =~= map_script_text(ident.name@, entries, views(shapes@)));
    s
}

/// The title of a page that was given none.
pub open spec fn default_title() -> Seq<char> {
    "Google Maps - mapplot"@
}

/// An HTML page that loads the Maps API with `apikey` and runs `script`
/// once the page has loaded.
pub open spec fn page_text(title: Seq<char>, apikey: Seq<char>, script: Seq<char>) -> Seq<char> {
    "\n<html>\n<head>\n<meta name=\"viewport\" content=\"initial-scale=1.0, user-scalable=no\" />\n<meta http-equiv=\"content-type\" content=\"text/html; charset=UTF-8\"/>\n<title>"@
        + title
        + "</title>\n<script type=\"text/javascript\" src=\"https://maps.googleapis.com/maps/api/js?libraries=visualization&sensor=true_or_false&key="@
        + apikey + "\"></script>\n<script type=\"text/javascript\">\n\tfunction initialize() {\n"@
        + script
        + "\n\t}\n</script>\n</head>\n<body style=\"margin:0px; padding:0px;\" onload=\"initialize()\">\n\t<div id=\"map_canvas\" style=\"width: 100%; height: 100%;\"></div>\n</body>\n</html>\n"@
}

/// The HTML page of a map; a page without a title gets the default one.
pub fn html_page(title: &Option<String>, apikey: &str, script: &str) -> (r: String)
    ensures
        r@ == page_text(
            match title {
                Some(t) => t@,
                None => default_title(),
            },
            apikey@,
            script@,
        ),
{
    let mut s = String::from_str("\n<html>\n<head>\n<meta name=\"viewport\" content=\"initial-scale=1.0, user-scalable=no\" />\n<meta http-equiv=\"content-type\" content=\"text/html; charset=UTF-8\"/>\n<title>");
    match title {
        Some(t) => s.append(t.as_str()),
        None => s.append("Google Maps - mapplot"),
    }
    s.append("</title>\n<script type=\"text/javascript\" src=\"https://maps.googleapis.com/maps/api/js?libraries=visualization&sensor=true_or_false&key=");
    s.append(apikey);
    s.append("\"></script>\n<script type=\"text/javascript\">\n\tfunction initialize() {\n");
    s.append(script);
    s.append("\n\t}\n</script>\n</head>\n<body style=\"margin:0px; padding:0px;\" onload=\"initialize()\">\n\t<div id=\"map_canvas\" style=\"width: 100%; height: 100%;\"></div>\n</body>\n</html>\n");
    s
}

/// The type of a Google map.
#[derive(Clone, Copy, Debug, PartialEq, Eq, Structural)]
pub enum MapType {
    /// A normal street map.
    Roadmap,
    /// Satellite images.
    Satellite,
    /// A transparent layer of major streets on satellite images.
    Hybrid,
    /// Maps with physical features such as terrain and vegetation.
    Terrain,
}

impl JavaScript for MapType {
    open spec fn js(&self) -> Seq<char> {
        match self {
            MapType::Roadmap => "google.maps.MapTypeId.ROADMAP"@,
            MapType::Satellite => "google.maps.MapTypeId.SATELLITE"@,
            MapType::Hybrid => "google.maps.MapTypeId.HYBRID"@,
            MapType::Terrain => "google.maps.MapTypeId.TERRAIN"@,
        }
    }

    fn fmt_js(&self, out: &mut String) {
        match self {
            MapType::Roadmap => out.append("google.maps.MapTypeId.ROADMAP"),
            MapType::Satellite => out.append("google.maps.MapTypeId.SATELLITE"),
            MapType::Hybrid => out.append("google.maps.MapTypeId.HYBRID"),
            MapType::Terrain => out.append("google.maps.MapTypeId.TERRAIN"),
        }
    }
}

} // verus!
