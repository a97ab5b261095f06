//! The raster compositor: fetched tiles and vector shapes placed in one
//! pixel space, in draw order, and written out as an SVG document.

use crate::geo::{
    lemma_two_pow_adds, lemma_two_pow_monotone, lemma_world_size, project, project_spec,
    tile_grid, tile_grid_spec, tile_span, two_pow, two_pow_at, BoundingBox, PixelPoint,
    WorldPoint, MAX_ZOOM, TILE_SIZE,
};
use crate::text::SUBPIXELS;
use vstd::prelude::*;

verus! {

/// The view of an optional string.
pub open spec fn opt_view(o: Option<String>) -> Option<Seq<char>> {
    match o {
        Some(s) => Some(s@),
        None => None,
    }
}

fn clone_opt(o: &Option<String>) -> (r: Option<String>)
    ensures
        opt_view(r) == opt_view(*o),
{
    match o {
        Some(s) => Some(s.clone()),
        None => None,
    }
}

/// A rectangle of pixel space: its north-west corner and its size.
#[derive(Clone, Copy, Debug, PartialEq, Eq, Structural)]
pub struct ViewBox {
    pub x: u128,
    pub y: u128,
    pub width: u128,
    pub height: u128,
}

pub open spec fn min_u128(a: u128, b: u128) -> u128 {
    if a <= b {
        a
    } else {
        b
    }
}

pub open spec fn abs_diff(a: u128, b: u128) -> u128 {
    if a <= b {
        (b - a) as u128
    } else {
        (a - b) as u128
    }
}

/// The pixel rectangle at `zoom` between two opposite corners: the smaller
/// projected coordinate on each axis, and the distance between the two.
pub open spec fn pixel_box_spec(p1: WorldPoint, p2: WorldPoint, zoom: nat) -> ViewBox {
    let a = project_spec(p1, zoom);
    let b = project_spec(p2, zoom);
    ViewBox { x: min_u128(a.x, b.x), y: min_u128(a.y, b.y), width: abs_diff(a.x, b.x), height: abs_diff(a.y, b.y) }
}

/// The pixel rectangle at `zoom` between two opposite corners.
pub fn pixel_box(p1: WorldPoint, p2: WorldPoint, zoom: u8) -> (r: ViewBox)
    requires
        zoom <= MAX_ZOOM,
    ensures
        r == pixel_box_spec(p1, p2, zoom as nat),
{
    let a = project(p1, zoom);
    let b = project(p2, zoom);
    ViewBox {
        x: if a.x <= b.x { a.x } else { b.x },
        y: if a.y <= b.y { a.y } else { b.y },
        width: if a.x <= b.x { b.x - a.x } else { a.x - b.x },
        height: if a.y <= b.y { b.y - a.y } else { a.y - b.y },
    }
}

/// A fetched tile: its (column, row) index and its image as a URL.
#[derive(Debug)]
pub struct Tile {
    pub index: (u32, u32),
    pub href: String,
}

impl Tile {
    pub fn new(index: (u32, u32), href: String) -> (r: Tile)
        ensures
            r.index == index,
            r.href@ == href@,
    {
        Tile { index, href }
    }
}

/// A drawable item of a document, in pixel space.
#[derive(Debug)]
pub enum Primitive {
    /// A raster image with its north-west corner at (x, y), `size` across.
    Image { x: u128, y: u128, size: u128, href: String },
    /// An open line through `points`, stroked and not filled.
    Polyline { points: Vec<PixelPoint>, color: Option<String>, width: Option<usize> },
    /// An axis-aligned rectangle, stroked and not filled.
    Rect { area: ViewBox, color: Option<String>, width: Option<usize> },
    /// A circle around `center` of radius `radius`.
    Circle {
        center: PixelPoint,
        radius: u128,
        color: Option<String>,
        width: Option<usize>,
        fill: Option<String>,
    },
    /// Closed rings filled by the nonzero winding rule, so that a ring wound
    /// against the outer one cuts a hole.
    Path {
        rings: Vec<Vec<PixelPoint>>,
        color: Option<String>,
        width: Option<usize>,
        fill: Option<String>,
    },
}

pub enum PrimitiveView {
    Image { x: u128, y: u128, size: u128, href: Seq<char> },
    Polyline { points: Seq<PixelPoint>, color: Option<Seq<char>>, width: Option<usize> },
    Rect { area: ViewBox, color: Option<Seq<char>>, width: Option<usize> },
    Circle {
        center: PixelPoint,
        radius: u128,
        color: Option<Seq<char>>,
        width: Option<usize>,
        fill: Option<Seq<char>>,
    },
    Path {
        rings: Seq<Seq<PixelPoint>>,
        color: Option<Seq<char>>,
        width: Option<usize>,
        fill: Option<Seq<char>>,
    },
}

impl View for Primitive {
    type V = PrimitiveView;

    open spec fn view(&self) -> PrimitiveView {
        match self {
            Primitive::Image { x, y, size, href } => PrimitiveView::Image {
                x: *x,
                y: *y,
                size: *size,
                href: href@,
            },
            Primitive::Polyline { points, color, width } => PrimitiveView::Polyline {
                points: points@,
                color: opt_view(*color),
                width: *width,
            },
            Primitive::Rect { area, color, width } => PrimitiveView::Rect {
                area: *area,
                color: opt_view(*color),
                width: *width,
            },
            Primitive::Circle { center, radius, color, width, fill } => PrimitiveView::Circle {
                center: *center,
                radius: *radius,
                color: opt_view(*color),
                width: *width,
                fill: opt_view(*fill),
            },
            Primitive::Path { rings, color, width, fill } => PrimitiveView::Path {
                rings: rings@.map_values(|r: Vec<PixelPoint>| r@),
                color: opt_view(*color),
                width: *width,
                fill: opt_view(*fill),
            },
        }
    }
}

/// Where a tile is drawn: its north-west corner is its index scaled by the
/// tile size, in sub-pixels.
pub open spec fn tile_view(t: Tile) -> PrimitiveView {
    PrimitiveView::Image {
        x: (t.index.0 * TILE_SIZE * SUBPIXELS) as u128,
        y: (t.index.1 * TILE_SIZE * SUBPIXELS) as u128,
        size: (TILE_SIZE * SUBPIXELS) as u128,
        href: t.href@,
    }
}

/// Places a tile in pixel space.
pub fn place_tile(t: &Tile) -> (r: Primitive)
    ensures
        r@ == tile_view(*t),
{
    let side: u128 = TILE_SIZE as u128 * SUBPIXELS;
    proof {
        let (c, w) = t.index;
        assert(c * side == c * TILE_SIZE * SUBPIXELS && w * side == w * TILE_SIZE * SUBPIXELS
            && c * side <= 4294967295 * 4294967296 && w * side <= 4294967295 * 4294967296)
            by (nonlinear_arith)
            requires
                side == TILE_SIZE * SUBPIXELS,
                side == 4294967296,
                c <= 4294967295,
                w <= 4294967295,
        ;
    }
    Primitive::Image {
        x: t.index.0 as u128 * side,
        y: t.index.1 as u128 * side,
        size: side,
        href: t.href.clone(),
    }
}

/// An open line through geographic points, in order.
#[derive(Debug)]
pub struct Polyline {
    pub path: Vec<WorldPoint>,
    pub color: Option<String>,
    pub width: Option<usize>,
}

impl Polyline {
    pub fn new(points: Vec<WorldPoint>) -> (r: Polyline)
        ensures
            r.path@ == points@,
            r.color.is_none(),
            r.width.is_none(),
    {
        Polyline { path: points, color: None, width: None }
    }

    /// Sets the stroke colour.
    pub fn color(self, value: &str) -> (r: Polyline)
        ensures
            r.path@ == self.path@,
            opt_view(r.color) == Some(value@),
            r.width == self.width,
    {
        Polyline { path: self.path, color: Some(value.to_string()), width: self.width }
    }

    /// Sets the stroke width, in pixels.
    pub fn width(self, value: usize) -> (r: Polyline)
        ensures
            r.path@ == self.path@,
            opt_view(r.color) == opt_view(self.color),
            r.width == Some(value),
    {
        Polyline { path: self.path, color: self.color, width: Some(value) }
    }
}

/// An axis-aligned rectangle between two opposite geographic corners.
#[derive(Debug)]
pub struct Rectangle {
    pub p1: WorldPoint,
    pub p2: WorldPoint,
    pub color: Option<String>,
    pub width: Option<usize>,
}

impl Rectangle {
    pub fn new(p1: WorldPoint, p2: WorldPoint) -> (r: Rectangle)
        ensures
            r.p1 == p1,
            r.p2 == p2,
            r.color.is_none(),
            r.width.is_none(),
    {
        Rectangle { p1, p2, color: None, width: None }
    }

    /// Sets the stroke colour.
    pub fn color(self, value: &str) -> (r: Rectangle)
        ensures
            r.p1 == self.p1,
            r.p2 == self.p2,
            opt_view(r.color) == Some(value@),
            r.width == self.width,
    {
        Rectangle { p1: self.p1, p2: self.p2, color: Some(value.to_string()), width: self.width }
    }

    /// Sets the stroke width, in pixels.
    pub fn width(self, value: usize) -> (r: Rectangle)
        ensures
            r.p1 == self.p1,
            r.p2 == self.p2,
            opt_view(r.color) == opt_view(self.color),
            r.width == Some(value),
    {
        Rectangle { p1: self.p1, p2: self.p2, color: self.color, width: Some(value) }
    }
}

/// A closed, filled shape of one or more paths: the first is the outer
/// boundary, and a later path wound the other way round cuts a hole.
#[derive(Debug)]
pub struct Polygon {
    pub paths: Vec<Vec<WorldPoint>>,
    pub color: Option<String>,
    pub width: Option<usize>,
    pub fill: Option<String>,
}

impl Polygon {
    pub open spec fn paths_view(self) -> Seq<Seq<WorldPoint>> {
        self.paths@.map_values(|p: Vec<WorldPoint>| p@)
    }

    pub fn new(points: Vec<WorldPoint>) -> (r: Polygon)
        ensures
            r.paths_view() == seq![points@],
            r.color.is_none(),
            r.width.is_none(),
            r.fill.is_none(),
    {
        let mut paths: Vec<Vec<WorldPoint>> = Vec::new();
        paths.push(points);
        let r = Polygon { paths, color: None, width: None, fill: None };
        assert(r.paths_view() =~= seq![points@]);
        r
    }

    /// Adds a path after the others.
    pub fn path(self, points: Vec<WorldPoint>) -> (r: Polygon)
        ensures
            r.paths_view() == self.paths_view().push(points@),
            opt_view(r.color) == opt_view(self.color),
            r.width == self.width,
            opt_view(r.fill) == opt_view(self.fill),
    {
        let ghost before = self.paths_view();
        let mut paths = self.paths;
        paths.push(points);
        let r = Polygon { paths, color: self.color, width: self.width, fill: self.fill };
        assert(r.paths_view() =~= before.push(points@));
        r
    }

    /// Sets the stroke colour.
    pub fn color(self, value: &str) -> (r: Polygon)
        ensures
            r.paths_view() == self.paths_view(),
            opt_view(r.color) == Some(value@),
            r.width == self.width,
            opt_view(r.fill) == opt_view(self.fill),
    {
        Polygon { paths: self.paths, color: Some(value.to_string()), width: self.width, fill: self.fill }
    }

    /// Sets the stroke width, in pixels.
    pub fn width(self, value: usize) -> (r: Polygon)
        ensures
            r.paths_view() == self.paths_view(),
            opt_view(r.color) == opt_view(self.color),
            r.width == Some(value),
            opt_view(r.fill) == opt_view(self.fill),
    {
        Polygon { paths: self.paths, color: self.color, width: Some(value), fill: self.fill }
    }

    /// Sets the fill colour.
    pub fn fill(self, value: &str) -> (r: Polygon)
        ensures
            r.paths_view() == self.paths_view(),
            opt_view(r.color) == opt_view(self.color),
            r.width == self.width,
            opt_view(r.fill) == Some(value@),
    {
        Polygon { paths: self.paths, color: self.color, width: self.width, fill: Some(value.to_string()) }
    }
}

/// A circle around a geographic centre. Its radius is in world units, as
/// measured at the centre.
#[derive(Debug)]
pub struct Circle {
    pub center: WorldPoint,
    pub radius: u64,
    pub color: Option<String>,
    pub width: Option<usize>,
    pub fill: Option<String>,
}

impl Circle {
    pub fn new(center: WorldPoint, radius: u64) -> (r: Circle)
        ensures
            r.center == center,
            r.radius == radius,
            r.color.is_none(),
            r.width.is_none(),
            r.fill.is_none(),
    {
        Circle { center, radius, color: None, width: None, fill: None }
    }

    /// Sets the stroke colour.
    pub fn color(self, value: &str) -> (r: Circle)
        ensures
            r.center == self.center,
            r.radius == self.radius,
            opt_view(r.color) == Some(value@),
            r.width == self.width,
            opt_view(r.fill) == opt_view(self.fill),
    {
        Circle { color: Some(value.to_string()), ..self }
    }

    /// Sets the stroke width, in pixels.
    pub fn width(self, value: usize) -> (r: Circle)
        ensures
            r.center == self.center,
            r.radius == self.radius,
            opt_view(r.color) == opt_view(self.color),
            r.width == Some(value),
            opt_view(r.fill) == opt_view(self.fill),
    {
        Circle { width: Some(value), ..self }
    }

    /// Sets the fill colour.
    pub fn fill(self, value: &str) -> (r: Circle)
        ensures
            r.center == self.center,
            r.radius == self.radius,
            opt_view(r.color) == opt_view(self.color),
            r.width == self.width,
            opt_view(r.fill) == Some(value@),
    {
        Circle { fill: Some(value.to_string()), ..self }
    }
}

/// A shape drawn over the tiles.
#[derive(Debug)]
pub enum Shape {
    Polyline(Polyline),
    Rectangle(Rectangle),
    Polygon(Polygon),
    Circle(Circle),
}

/// Projects the vertices of a path to `zoom`, in order.
pub fn project_points(path: &Vec<WorldPoint>, zoom: u8) -> (r: Vec<PixelPoint>)
    requires
        zoom <= MAX_ZOOM,
    ensures
        r@ == project_path(path@, zoom as nat),
{
    let mut points: Vec<PixelPoint> = Vec::new();
    let mut i: usize = 0;
    while i < path.len()
        invariant
            zoom <= MAX_ZOOM,
            i <= path@.len(),
            points@ == project_path(path@.take(i as int), zoom as nat),
        decreases path@.len() - i,
    {
        points.push(project(path[i], zoom));
        i = i + 1;
        assert(path@.take(i as int) =~= path@.take(i - 1).push(path@[i - 1]));
        assert(points@ =~= project_path(path@.take(i as int), zoom as nat));
    }
    assert(path@.take(i as int) =~= path@);
    points
}

/// The vertices of a path, projected to `zoom`, in the same order.
pub open spec fn project_path(path: Seq<WorldPoint>, zoom: nat) -> Seq<PixelPoint> {
    path.map_values(|p: WorldPoint| project_spec(p, zoom))
}

impl Shape {
    /// What the shape draws at `zoom`.
    pub open spec fn render_spec(self, zoom: nat) -> PrimitiveView {
        match self {
            Shape::Polyline(l) => PrimitiveView::Polyline {
                points: project_path(l.path@, zoom),
                color: opt_view(l.color),
                width: l.width,
            },
            Shape::Rectangle(r) => PrimitiveView::Rect {
                area: pixel_box_spec(r.p1, r.p2, zoom),
                color: opt_view(r.color),
                width: r.width,
            },
            Shape::Circle(c) => PrimitiveView::Circle {
                center: project_spec(c.center, zoom),
                radius: (c.radius * two_pow(zoom)) as u128,
                color: opt_view(c.color),
                width: c.width,
                fill: opt_view(c.fill),
            },
            Shape::Polygon(g) => PrimitiveView::Path {
                rings: g.paths_view().map_values(|p: Seq<WorldPoint>| project_path(p, zoom)),
                color: opt_view(g.color),
                width: g.width,
                fill: opt_view(g.fill),
            },
        }
    }

    /// Projects the shape's points to `zoom` and yields what it draws.
    pub fn to_primitive(&self, zoom: u8) -> (r: Primitive)
        requires
            zoom <= MAX_ZOOM,
        ensures
            r@ == self.render_spec(zoom as nat),
    {
        match self {
            Shape::Polyline(l) => Primitive::Polyline {
                points: project_points(&l.path, zoom),
                color: clone_opt(&l.color),
                width: l.width,
            },
            Shape::Rectangle(r) => Primitive::Rect {
                area: pixel_box(r.p1, r.p2, zoom),
                color: clone_opt(&r.color),
                width: r.width,
            },
            Shape::Circle(c) => Primitive::Circle {
                center: project(c.center, zoom),
                radius: {
                    let k = two_pow_at(zoom) as u128;
                    proof {
                        lemma_two_pow_monotone(zoom as nat, MAX_ZOOM as nat);
                        lemma_world_size();
                        assert(c.radius * k <= 18446744073709551615 * 16777216)
                            by (nonlinear_arith)
                            requires
                                k <= 16777216,
                                c.radius <= 18446744073709551615,
                        ;
                    }
                    c.radius as u128 * k
                },
                color: clone_opt(&c.color),
                width: c.width,
                fill: clone_opt(&c.fill),
            },
            Shape::Polygon(g) => {
                let mut rings: Vec<Vec<PixelPoint>> = Vec::new();
                let mut i: usize = 0;
                while i < g.paths.len()
                    invariant
                        zoom <= MAX_ZOOM,
                        i <= g.paths@.len(),
                        rings@.len() == i,
                        forall|k: int|
                            0 <= k < i ==> #[trigger] rings@[k]@ == project_path(
                                g.paths@[k]@,
                                zoom as nat,
                            ),
                    decreases g.paths@.len() - i,
                {
                    rings.push(project_points(&g.paths[i], zoom));
                    i = i + 1;
                }
                let r = Primitive::Path {
                    rings,
                    color: clone_opt(&g.color),
                    width: g.width,
                    fill: clone_opt(&g.fill),
                };
                assert(r@ matches PrimitiveView::Path { rings: rv, .. } && rv =~= g.paths_view().map_values(
                    |p: Seq<WorldPoint>| project_path(p, zoom as nat),
                ));
                r
            },
        }
    }
}

/// A tile of the grid that was not among the fetched tiles.
#[derive(Clone, Copy, Debug, PartialEq, Eq, Structural)]
pub struct MissingTile {
    pub col: u32,
    pub row: u32,
}

/// The composed document: a viewport and the primitives in draw order,
/// later ones painted over earlier ones.
#[derive(Debug)]
pub struct Document {
    pub view_box: ViewBox,
    pub primitives: Vec<Primitive>,
}

pub struct DocumentView {
    pub view_box: ViewBox,
    pub primitives: Seq<PrimitiveView>,
}

impl View for Document {
    type V = DocumentView;

    open spec fn view(&self) -> DocumentView {
        DocumentView {
            view_box: self.view_box,
            primitives: self.primitives@.map_values(|p: Primitive| p@),
        }
    }
}

/// A map to be exported as an image: a box at a zoom level, the tiles that
/// cover it, and the shapes drawn over them.
#[derive(Debug)]
pub struct ImageMap {
    bbox: BoundingBox,
    zoom: u8,
    tiles: Vec<Tile>,
    shapes: Vec<Shape>,
}

/// Whether some tile of `tiles` has index `index`.
pub open spec fn has_tile(tiles: Seq<Tile>, index: (u32, u32)) -> bool {
    exists|j: int| 0 <= j < tiles.len() && tiles[j].index == index
}

/// Whether `t` is one of `fetched`: same index, same image.
pub open spec fn is_fetched(t: Tile, fetched: Seq<Tile>) -> bool {
    exists|j: int| 0 <= j < fetched.len() && fetched[j].index == t.index && fetched[j].href@ == t.href@
}

fn find_tile(tiles: &Vec<Tile>, index: (u32, u32)) -> (r: Option<usize>)
    ensures
        match r {
            Some(j) => j < tiles@.len() && tiles@[j as int].index == index,
            None => !has_tile(tiles@, index),
        },
{
    let mut j: usize = 0;
    while j < tiles.len()
        invariant
            j <= tiles@.len(),
            forall|k: int| 0 <= k < j ==> tiles@[k].index != index,
        decreases tiles@.len() - j,
    {
        if tiles[j].index.0 == index.0 && tiles[j].index.1 == index.1 {
            return Some(j);
        }
        j = j + 1;
    }
    None
}

impl ImageMap {
    pub closed spec fn bbox(self) -> BoundingBox {
        self.bbox
    }

    pub closed spec fn zoom(self) -> nat {
        self.zoom as nat
    }

    /// The tiles, in the order of the tile grid.
    pub closed spec fn tiles(self) -> Seq<Tile> {
        self.tiles@
    }

    /// The shapes, in the order they were drawn.
    pub closed spec fn shapes(self) -> Seq<Shape> {
        self.shapes@
    }

    /// The box lies on the world square, the zoom is supported, and the
    /// tiles are those of the grid, one for each index, in grid order.
    pub open spec fn wf(self) -> bool {
        &&& self.bbox().wf()
        &&& self.zoom() <= MAX_ZOOM
        &&& self.tiles().len() == tile_grid_spec(self.bbox(), self.zoom()).len()
        &&& forall|i: int|
            0 <= i < self.tiles().len() ==> #[trigger] self.tiles()[i].index == tile_grid_spec(
                self.bbox(),
                self.zoom(),
            )[i]
    }

    /// Builds the map of `bbox` at `zoom` from fetched tiles, which may come
    /// in any order: each tile of the grid is taken from `fetched` by its
    /// index, and the map fails on the first grid tile that is missing.
    pub fn new(bbox: BoundingBox, zoom: u8, fetched: Vec<Tile>) -> (r: Result<
        ImageMap,
        MissingTile,
    >)
        requires
            bbox.wf(),
            zoom <= MAX_ZOOM,
            tile_grid_spec(bbox, zoom as nat).len() <= usize::MAX,
        ensures
            r is Ok <==> forall|i: int|
                0 <= i < tile_grid_spec(bbox, zoom as nat).len() ==> has_tile(
                    fetched@,
                    #[trigger] tile_grid_spec(bbox, zoom as nat)[i],
                ),
            r matches Ok(m) ==> m.wf() && m.bbox() == bbox && m.zoom() == zoom,
            r matches Ok(m) ==> m.tiles().len() == tile_grid_spec(bbox, zoom as nat).len(),
            r matches Ok(m) ==> forall|i: int|
                0 <= i < m.tiles().len() ==> #[trigger] m.tiles()[i].index == tile_grid_spec(
                    bbox,
                    zoom as nat,
                )[i],
            r matches Ok(m) ==> m.shapes().len() == 0,
            r matches Ok(m) ==> forall|i: int|
                0 <= i < m.tiles().len() ==> is_fetched(#[trigger] m.tiles()[i], fetched@),
            r matches Err(e) ==> tile_grid_spec(bbox, zoom as nat).contains((e.col, e.row))
                && !has_tile(fetched@, (e.col, e.row)),
    {
        let grid = tile_grid(bbox, zoom);
        let mut tiles: Vec<Tile> = Vec::new();
        let ghost mut src: Seq<int> = Seq::empty();
        let mut i: usize = 0;
        while i < grid.len()
            invariant
                grid@ == tile_grid_spec(bbox, zoom as nat),
                i <= grid@.len(),
                tiles@.len() == i,
                forall|k: int| 0 <= k < i ==> #[trigger] tiles@[k].index == grid@[k],
                forall|k: int| 0 <= k < i ==> has_tile(fetched@, #[trigger] grid@[k]),
                src.len() == i,
                forall|k: int|
                    0 <= k < i ==> 0 <= #[trigger] src[k] < fetched@.len() && fetched@[src[k]].index
                        == tiles@[k].index && fetched@[src[k]].href@ == tiles@[k].href@,
            decreases grid@.len() - i,
        {
            let index = grid[i];
            match find_tile(&fetched, index) {
                Some(j) => {
                    let t = Tile { index, href: fetched[j].href.clone() };
                    tiles.push(t);
                    proof {
                        src = src.push(j as int);
                    }
                },
                None => {
                    assert(grid@.contains(index) ==> grid@[i as int] == index);
                    assert(grid@[i as int] == index);
                    return Err(MissingTile { col: index.0, row: index.1 });
                },
            }
            i = i + 1;
        }
        let m = ImageMap { bbox, zoom, tiles, shapes: Vec::new() };
        assert forall|k: int| 0 <= k < m.tiles().len() implies is_fetched(
            #[trigger] m.tiles()[k],
            fetched@,
        ) by {
            assert(0 <= src[k] < fetched@.len());
        }
        assert(m.wf());
        Ok(m)
    }

    /// Draws a shape over everything drawn so far.
    pub fn draw(&mut self, shape: Shape)
        ensures
            final(self).shapes() == old(self).shapes().push(shape),
            final(self).tiles() == old(self).tiles(),
            final(self).bbox() == old(self).bbox(),
            final(self).zoom() == old(self).zoom(),
            old(self).wf() ==> final(self).wf(),
    {
        self.shapes.push(shape);
    }

    /// The composed document: the viewport is the box projected to the
    /// map's zoom; the tiles come first, in grid order, then the shapes, in
    /// the order they were drawn.
    pub open spec fn document_spec(self) -> DocumentView {
        DocumentView {
            view_box: pixel_box_spec(self.bbox().p1, self.bbox().p2, self.zoom()),
            primitives: self.tiles().map_values(|t: Tile| tile_view(t)) + self.shapes().map_values(
                |s: Shape| s.render_spec(self.zoom()),
            ),
        }
    }

    /// Composes the map into one document.
    pub fn document(&self) -> (r: Document)
        requires
            self.wf(),
        ensures
            r@ == self.document_spec(),
    {
        let view_box = pixel_box(self.bbox.p1, self.bbox.p2, self.zoom);
        let mut primitives: Vec<Primitive> = Vec::new();
        let mut i: usize = 0;
        while i < self.tiles.len()
            invariant
                i <= self.tiles@.len(),
                primitives@.len() == i,
                forall|k: int| 0 <= k < i ==> #[trigger] primitives@[k]@ == tile_view(self.tiles@[k]),
            decreases self.tiles@.len() - i,
        {
            primitives.push(place_tile(&self.tiles[i]));
            i = i + 1;
        }
        let ghost n = self.tiles@.len();
        let mut k: usize = 0;
        while k < self.shapes.len()
            invariant
                self.zoom <= MAX_ZOOM,
                n == self.tiles@.len(),
                k <= self.shapes@.len(),
                primitives@.len() == n + k,
                forall|j: int| 0 <= j < n ==> #[trigger] primitives@[j]@ == tile_view(self.tiles@[j]),
                forall|j: int|
                    0 <= j < k ==> #[trigger] primitives@[n + j]@ == self.shapes@[j].render_spec(
                        self.zoom as nat,
                    ),
            decreases self.shapes@.len() - k,
        {
            primitives.push(self.shapes[k].to_primitive(self.zoom));
            k = k + 1;
            assert(primitives@[n + k - 1]@ == self.shapes@[k - 1].render_spec(self.zoom as nat));
        }
        let r = Document { view_box, primitives };
        assert forall|j: int| 0 <= j < r@.primitives.len() implies #[trigger] r@.primitives[j]
            == self.document_spec().primitives[j] by {
            if j >= n {
                assert(primitives@[n + (j - n)]@ == self.shapes@[j - n].render_spec(
                    self.zoom as nat,
                ));
            }
        }
        assert(r@.primitives =~= self.document_spec().primitives);
        r
    }
}

/// Shapes are drawn over tiles: in the composed document the tiles come
/// first, each in its place, and every shape comes after all of them.
pub proof fn lemma_shapes_over_tiles(m: ImageMap)
    ensures
        ({
            let p = m.document_spec().primitives;
            let n = m.tiles().len();
            &&& p.len() == n + m.shapes().len()
            &&& forall|i: int| 0 <= i < n ==> #[trigger] p[i] == tile_view(m.tiles()[i])
            &&& forall|j: int|
                0 <= j < m.shapes().len() ==> #[trigger] p[n + j] == m.shapes()[j].render_spec(
                    m.zoom(),
                )
        }),
{
}

/// Whether tiles of `f` that share an index also share their image.
pub open spec fn consistent(f: Seq<Tile>) -> bool {
    forall|i: int, j: int|
        0 <= i < f.len() && 0 <= j < f.len() && #[trigger] f[i].index == #[trigger] f[j].index
            ==> f[i].href@ == f[j].href@
}

/// The order in which tiles were fetched does not matter: two maps of the
/// same box, zoom and shapes, whose tiles were taken from fetched tiles that
/// are the same, in any order and each index with one image, compose to the
/// same document.
pub proof fn lemma_fetch_order_irrelevant(
    m1: ImageMap,
    m2: ImageMap,
    f1: Seq<Tile>,
    f2: Seq<Tile>,
)
    requires
        m1.wf(),
        m2.wf(),
        m1.bbox() == m2.bbox(),
        m1.zoom() == m2.zoom(),
        m1.shapes() == m2.shapes(),
        forall|i: int| 0 <= i < m1.tiles().len() ==> is_fetched(#[trigger] m1.tiles()[i], f1),
        forall|i: int| 0 <= i < m2.tiles().len() ==> is_fetched(#[trigger] m2.tiles()[i], f2),
        forall|t: Tile| is_fetched(t, f1) ==> #[trigger] is_fetched(t, f2),
        consistent(f2),
    ensures
        m1.document_spec() == m2.document_spec(),
{
    let t1 = m1.tiles().map_values(|t: Tile| tile_view(t));
    let t2 = m2.tiles().map_values(|t: Tile| tile_view(t));
    assert forall|i: int| 0 <= i < t1.len() implies t1[i] == t2[i] by {
        let a = m1.tiles()[i];
        let b = m2.tiles()[i];
        assert(is_fetched(a, f1));
        assert(is_fetched(a, f2));
        assert(is_fetched(b, f2));
        let j = choose|j: int|
            0 <= j < f2.len() && f2[j].index == a.index && f2[j].href@ == a.href@;
        let k = choose|k: int|
            0 <= k < f2.len() && f2[k].index == b.index && f2[k].href@ == b.href@;
        assert(f2[j].index == f2[k].index);
    }
    assert(t1 =~= t2);
    assert(m1.document_spec().primitives =~= m2.document_spec().primitives);
}

/// A polyline through N points draws a line through N points: the
/// projections of its points, in the same order.
pub proof fn lemma_polyline_vertices(l: Polyline, zoom: nat)
    ensures
        Shape::Polyline(l).render_spec(zoom) matches PrimitiveView::Polyline { points, .. } &&
            points.len() == l.path@.len() && forall|i: int|
            0 <= i < points.len() ==> #[trigger] points[i] == project_spec(l.path@[i], zoom),
{
}

/// A polyline drawn one zoom level deeper has each of its points at exactly
/// twice the position.
pub proof fn lemma_polyline_doubles(l: Polyline, zoom: nat)
    requires
        zoom < MAX_ZOOM,
    ensures
        Shape::Polyline(l).render_spec(zoom) matches PrimitiveView::Polyline { points: a, .. }
            && Shape::Polyline(l).render_spec(zoom + 1) matches PrimitiveView::Polyline {
            points: b,
            ..
        } && a.len() == b.len() && forall|i: int|
            0 <= i < a.len() ==> #[trigger] b[i] == (PixelPoint {
                x: (2 * a[i].x) as u128,
                y: (2 * a[i].y) as u128,
            }),
{
    assert forall|i: int| 0 <= i < l.path@.len() implies project_spec(l.path@[i], zoom + 1) == (
    PixelPoint {
        x: (2 * project_spec(l.path@[i], zoom).x) as u128,
        y: (2 * project_spec(l.path@[i], zoom).y) as u128,
    }) by {
        crate::geo::lemma_project_doubles(l.path@[i], zoom);
    }
}

/// A tile is drawn where its north-west corner projects: the corner of tile
/// (col, row) on the world square lies, at the tile's zoom, at the tile's
/// index scaled by the tile size.
pub proof fn lemma_tile_origin(col: nat, row: nat, zoom: nat)
    requires
        zoom <= MAX_ZOOM,
        col * tile_span(zoom) <= u64::MAX,
        row * tile_span(zoom) <= u64::MAX,
    ensures
        project_spec(
            WorldPoint { x: (col * tile_span(zoom)) as u64, y: (row * tile_span(zoom)) as u64 },
            zoom,
        ) == (PixelPoint {
            x: (col * TILE_SIZE * SUBPIXELS) as u128,
            y: (row * TILE_SIZE * SUBPIXELS) as u128,
        }),
{
    lemma_world_size();
    lemma_two_pow_adds((MAX_ZOOM + 8 - zoom) as nat, zoom);
    assert((MAX_ZOOM + 8 - zoom) as nat + zoom == 32);
    let t = tile_span(zoom);
    let s = two_pow(zoom);
    assert(t * s == TILE_SIZE * SUBPIXELS);
    assert(col * t * s == col * (TILE_SIZE * SUBPIXELS) && row * t * s == row * (TILE_SIZE
        * SUBPIXELS) && col * (TILE_SIZE * SUBPIXELS) == col * TILE_SIZE * SUBPIXELS && row * (
    TILE_SIZE * SUBPIXELS) == row * TILE_SIZE * SUBPIXELS) by (nonlinear_arith)
        requires
            t * s == TILE_SIZE * SUBPIXELS,
    ;
}

/// Whether `v` lies between `a` and `b`, both included, in either order.
pub open spec fn between(v: u64, a: u64, b: u64) -> bool {
    (a <= v && v <= b) || (b <= v && v <= a)
}

/// A point that lies within a box, edges included, projects into the box's
/// pixel rectangle at every zoom.
pub proof fn lemma_inside_box_inside_viewport(b: BoundingBox, p: WorldPoint, zoom: nat)
    requires
        zoom <= MAX_ZOOM,
        between(p.x, b.p1.x, b.p2.x),
        between(p.y, b.p1.y, b.p2.y),
    ensures
        ({
            let v = pixel_box_spec(b.p1, b.p2, zoom);
            let q = project_spec(p, zoom);
            v.x <= q.x <= v.x + v.width && v.y <= q.y <= v.y + v.height
        }),
{
    let s = two_pow(zoom);
    lemma_two_pow_monotone(zoom, MAX_ZOOM as nat);
    lemma_world_size();
    assert forall|w: u64, a: u64| w <= a implies #[trigger] (w * s) <= #[trigger] (a * s) && a * s
        <= 18446744073709551615 * 16777216 by {
        assert(w * s <= a * s && a * s <= 18446744073709551615 * 16777216) by (nonlinear_arith)
            requires
                w <= a,
                s <= 16777216,
                a <= 18446744073709551615,
        ;
    }
}

} // verus!
