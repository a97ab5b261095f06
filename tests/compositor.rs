use mapplot::geo::{project, BoundingBox, PixelPoint, WorldPoint};
use mapplot::image::{
    Circle, ImageMap, MissingTile, Polygon, Polyline, Primitive, Rectangle, Shape, Tile, ViewBox,
};
use mapplot::markup::{path_attribute, points_attribute, view_box_attribute};

fn sample_box() -> BoundingBox {
    BoundingBox::new(
        WorldPoint::new(2195205506, 1418692524),
        WorldPoint::new(2196398553, 1416752527),
    )
}

fn sample_tiles() -> Vec<Tile> {
    vec![
        Tile::new((523, 338), "data:image/png;base64,Qg==".to_string()),
        Tile::new((523, 337), "data:image/png;base64,QQ==".to_string()),
    ]
}

#[test]
fn tiles_are_placed_in_grid_order() {
    let map = ImageMap::new(sample_box(), 10, sample_tiles()).unwrap();
    let doc = map.document();
    assert_eq!(doc.primitives.len(), 2);
    match &doc.primitives[0] {
        Primitive::Image { x, y, size, href } => {
            assert_eq!((*x, *y, *size), ((523 * 256) << 24, (337 * 256) << 24, 256 << 24));
            assert_eq!(href, "data:image/png;base64,QQ==");
        }
        other => panic!("expected an image, got {:?}", other),
    }
    match &doc.primitives[1] {
        Primitive::Image { x, y, .. } => assert_eq!((*x, *y), ((523 * 256) << 24, (338 * 256) << 24)),
        other => panic!("expected an image, got {:?}", other),
    }
}

#[test]
fn viewport_is_the_projected_box() {
    let map = ImageMap::new(sample_box(), 10, sample_tiles()).unwrap();
    let doc = map.document();
    assert_eq!(
        doc.view_box,
        ViewBox { x: 2247890438144, y: 1450754587648, width: 1221680128, height: 1986556928 }
    );
}

#[test]
fn missing_tile_is_reported() {
    let tiles = vec![Tile::new((523, 338), "data:,".to_string())];
    match ImageMap::new(sample_box(), 10, tiles) {
        Err(e) => assert_eq!(e, MissingTile { col: 523, row: 337 }),
        Ok(_) => panic!("a tile of the grid was missing"),
    }
}

#[test]
fn shape_is_drawn_over_tile() {
    let span: u64 = 1 << 22;
    let b = BoundingBox::new(WorldPoint::new(523 * span, 337 * span), WorldPoint::new(524 * span, 338 * span));
    let tiles = vec![Tile::new((523, 337), "data:,".to_string())];
    let mut map = ImageMap::new(b, 10, tiles).unwrap();
    let line = Polyline::new(vec![
        WorldPoint::new(523 * span + 10, 337 * span + 10),
        WorldPoint::new(523 * span + 99999, 337 * span + 99999),
    ]);
    map.draw(Shape::Polyline(line));
    let doc = map.document();
    assert_eq!(doc.primitives.len(), 2);
    assert!(matches!(doc.primitives[0], Primitive::Image { .. }));
    assert!(matches!(doc.primitives[1], Primitive::Polyline { .. }));
}

#[test]
fn polyline_keeps_its_points_in_order() {
    let pts = vec![
        WorldPoint::new(3 << 14, 5 << 14),
        WorldPoint::new(1 << 14, 9 << 14),
        WorldPoint::new(7 << 14, 2 << 14),
    ];
    let shape = Shape::Polyline(Polyline::new(pts.clone()).color("red").width(3));
    match shape.to_primitive(10) {
        Primitive::Polyline { points, color, width } => {
            assert_eq!(
                points,
                vec![px(3, 5), px(1, 9), px(7, 2)]
            );
            for (p, w) in points.iter().zip(pts.iter()) {
                assert_eq!(*p, project(*w, 10));
            }
            assert_eq!(color.as_deref(), Some("red"));
            assert_eq!(width, Some(3));
        }
        other => panic!("expected a polyline, got {:?}", other),
    }
}

#[test]
fn rectangle_spans_its_corners() {
    let shape = Shape::Rectangle(Rectangle::new(
        WorldPoint::new(9 << 14, 2 << 14),
        WorldPoint::new(4 << 14, 6 << 14),
    ));
    match shape.to_primitive(10) {
        Primitive::Rect { area, color, width } => {
            assert_eq!(area, ViewBox { x: 4 << 24, y: 2 << 24, width: 5 << 24, height: 4 << 24 });
            assert_eq!(color, None);
            assert_eq!(width, None);
        }
        other => panic!("expected a rectangle, got {:?}", other),
    }
}

#[test]
fn sample_scenario_end_to_end() {
    let mut map = ImageMap::new(sample_box(), 10, sample_tiles()).unwrap();
    let line = Polyline::new(vec![
        WorldPoint::new(2195500000, 1417000000),
        WorldPoint::new(2196000000, 1418000000),
    ]);
    map.draw(Shape::Polyline(line));
    let doc = map.document();
    assert_eq!(doc.primitives.len(), 3);
    let v = doc.view_box;
    match &doc.primitives[2] {
        Primitive::Polyline { points, .. } => {
            assert_eq!(points.len(), 2);
            for p in points {
                assert!(v.x <= p.x && p.x <= v.x + v.width);
                assert!(v.y <= p.y && p.y <= v.y + v.height);
            }
        }
        other => panic!("expected a polyline, got {:?}", other),
    }
    let svg = map.export_svg();
    assert!(svg.contains(
        r#"viewBox="133984.7110595703125 86471.71185302734375 72.81781005859375 118.40802001953125""#
    ));
    assert_eq!(svg.matches("<image").count(), 2);
    assert_eq!(svg.matches("<polyline").count(), 1);
    assert!(svg.find("<image").unwrap() < svg.find("<polyline").unwrap());
}

#[test]
fn svg_attributes() {
    let pts = vec![px(1, 2), px(30, 405), PixelPoint { x: (3 << 24) + (1 << 23), y: 1 }];
    assert_eq!(points_attribute(&pts), "1 2 30 405 3.5 0.000000059604644775390625");
    assert_eq!(points_attribute(&Vec::new()), "");
    assert_eq!(
        view_box_attribute(&ViewBox { x: 0, y: 7 << 24, width: 10 << 24, height: 256 << 24 }),
        "0 7 10 256"
    );
}

#[test]
fn polyline_element_markup() {
    let b = BoundingBox::new(WorldPoint::new(0, 0), WorldPoint::new(1 << 24, 1 << 24));
    let tiles = vec![Tile::new((0, 0), "data:,".to_string())];
    let mut map = ImageMap::new(b, 0, tiles).unwrap();
    map.draw(Shape::Polyline(
        Polyline::new(vec![WorldPoint::new(1 << 24, 2 << 24), WorldPoint::new(3 << 24, 4 << 24)])
            .color("blue")
            .width(2),
    ));
    let svg = map.export_svg();
    assert!(svg.contains(r#"<polyline fill="none" points="1 2 3 4" stroke="blue" stroke-width="2"/>"#));
    assert!(svg.contains(r#"<image height="256" href="data:," width="256" x="0" y="0"/>"#));
}

fn px(x: u128, y: u128) -> PixelPoint {
    PixelPoint { x: x << 24, y: y << 24 }
}

fn p(x: u64, y: u64) -> WorldPoint {
    WorldPoint::new(x << 14, y << 14)
}

#[test]
fn polygon_with_a_hole() {
    let shape = Shape::Polygon(
        Polygon::new(vec![p(0, 0), p(4, 0), p(4, 4)])
            .path(vec![p(1, 1), p(1, 3), p(3, 3)])
            .fill("green")
            .color("black")
            .width(1),
    );
    match shape.to_primitive(10) {
        Primitive::Path { rings, color, width, fill } => {
            assert_eq!(rings.len(), 2);
            assert_eq!(rings[0], vec![px(0, 0), px(4, 0), px(4, 4)]);
            assert_eq!(rings[1], vec![px(1, 1), px(1, 3), px(3, 3)]);
            assert_eq!(path_attribute(&rings), "M 0 0 L 4 0 L 4 4 Z M 1 1 L 1 3 L 3 3 Z");
            assert_eq!(color.as_deref(), Some("black"));
            assert_eq!(width, Some(1));
            assert_eq!(fill.as_deref(), Some("green"));
        }
        other => panic!("expected a path, got {:?}", other),
    }
}

#[test]
fn path_attribute_edges() {
    assert_eq!(path_attribute(&Vec::new()), "");
    assert_eq!(path_attribute(&vec![vec![px(5, 6)]]), "M 5 6 Z");
    assert_eq!(path_attribute(&vec![Vec::new()]), "");
}

#[test]
fn polygon_markup() {
    let b = BoundingBox::new(WorldPoint::new(0, 0), WorldPoint::new(1 << 24, 1 << 24));
    let mut map = ImageMap::new(b, 0, vec![Tile::new((0, 0), "data:,".to_string())]).unwrap();
    map.draw(Shape::Polygon(Polygon::new(vec![
        WorldPoint::new(1 << 24, 1 << 24),
        WorldPoint::new(2 << 24, 1 << 24),
        WorldPoint::new(2 << 24, 2 << 24),
    ])));
    let svg = map.export_svg();
    assert!(svg.contains(r#"<path d="M 1 1 L 2 1 L 2 2 Z" fill="none" fill-rule="nonzero"/>"#));
}

#[test]
fn circle_radius_scales_with_zoom() {
    let c = Circle::new(p(100, 200), 40 << 14).fill("red");
    match Shape::Circle(c).to_primitive(10) {
        Primitive::Circle { center, radius, fill, .. } => {
            assert_eq!(center, px(100, 200));
            assert_eq!(radius, 40 << 24);
            assert_eq!(fill.as_deref(), Some("red"));
        }
        other => panic!("expected a circle, got {:?}", other),
    }
    match Shape::Circle(Circle::new(p(100, 200), 40 << 14)).to_primitive(9) {
        Primitive::Circle { center, radius, .. } => {
            assert_eq!(center, px(50, 100));
            assert_eq!(radius, 20 << 24);
        }
        other => panic!("expected a circle, got {:?}", other),
    }
}

#[test]
fn same_tiles_in_any_order_give_the_same_markup() {
    let line = || Shape::Polyline(Polyline::new(vec![p(133990, 86500), p(134000, 86510)]));
    let mut a = ImageMap::new(sample_box(), 10, sample_tiles()).unwrap();
    let mut reversed = sample_tiles();
    reversed.reverse();
    let mut b = ImageMap::new(sample_box(), 10, reversed).unwrap();
    a.draw(line());
    b.draw(line());
    assert_eq!(a.export_svg(), b.export_svg());
}

#[test]
fn markup_of_each_element() {
    let b = BoundingBox::new(WorldPoint::new(0, 0), WorldPoint::new(1 << 24, 1 << 24));
    let mut map = ImageMap::new(b, 0, vec![Tile::new((0, 0), "data:,".to_string())]).unwrap();
    map.draw(Shape::Rectangle(Rectangle::new(WorldPoint::new(1 << 23, 0), WorldPoint::new(3 << 24, 2 << 24)).color("red")));
    map.draw(Shape::Circle(Circle::new(WorldPoint::new(5 << 24, 5 << 24), 1 << 24).fill("blue").width(2)));
    let svg = map.export_svg();
    assert!(svg.starts_with("<svg"));
    assert!(svg.contains(r#"viewBox="0 0 1 1""#));
    assert!(svg.contains(r#"<rect fill="none" height="2" stroke="red" width="2.5" x="0.5" y="0"/>"#));
    assert!(svg.contains(r#"<circle cx="5" cy="5" fill="blue" r="1" stroke-width="2"/>"#));
    assert!(svg.find("<image").unwrap() < svg.find("<rect").unwrap());
    assert!(svg.find("<rect").unwrap() < svg.find("<circle").unwrap());
}
