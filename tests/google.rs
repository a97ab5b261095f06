use mapplot::google::{
    constructor_call, html_page, map_script, to_js, JavaScript, JavaScriptObject, MapType,
    RawIdent,
};
use mapplot::style::{Color, StrokePosition};
use mapplot::text::decimal_string;

#[test]
fn map_types() {
    assert_eq!(to_js(&MapType::Roadmap), "google.maps.MapTypeId.ROADMAP");
    assert_eq!(to_js(&MapType::Satellite), "google.maps.MapTypeId.SATELLITE");
    assert_eq!(to_js(&MapType::Hybrid), "google.maps.MapTypeId.HYBRID");
    assert_eq!(to_js(&MapType::Terrain), "google.maps.MapTypeId.TERRAIN");
}

#[test]
fn stroke_positions() {
    assert_eq!(to_js(&StrokePosition::Center), "google.maps.StrokePosition.CENTER");
    assert_eq!(to_js(&StrokePosition::Inside), "google.maps.StrokePosition.INSIDE");
    assert_eq!(to_js(&StrokePosition::Outside), "google.maps.StrokePosition.OUTSIDE");
}

#[test]
fn rgb_colors_are_hex() {
    assert_eq!(to_js(&Color::RGB(255, 0, 16)), "\"#ff0010\"");
    assert_eq!(to_js(&Color::RGBA(1, 2, 3, 171)), "\"#010203ab\"");
}

#[test]
fn hsl_colors_are_percentages() {
    assert_eq!(
        to_js(&Color::HSL(200, 128, 100)),
        "\"hsl(200, 50.19607843137255%, 39.21568627450981%)\""
    );
    assert_eq!(to_js(&Color::HSL(120, 255, 0)), "\"hsl(120, 100%, 0%)\"");
    assert_eq!(to_js(&Color::HSLA(0, 255, 0, 51)), "\"hsla(0, 100%, 0%, 20%)\"");
}

#[test]
fn percentages_match_float_formatting() {
    for v in 0..=255u8 {
        let expected = format!("\"hsl(0, {}%, 0%)\"", 100.0 * f64::from(v) / 255.0);
        assert_eq!(to_js(&Color::HSL(0, v, 0)), expected);
    }
}

#[test]
fn named_colors_are_lower_case() {
    assert_eq!(to_js(&Color::Red), "\"red\"");
    assert_eq!(to_js(&Color::Fuchsia), "\"fuchsia\"");
    assert_eq!(to_js(&Color::Aqua), "\"aqua\"");
}

#[test]
fn literals() {
    assert_eq!(to_js(&true), "true");
    assert_eq!(to_js(&false), "false");
    assert_eq!(to_js(&6u8), "6");
    assert_eq!(to_js(&1234usize), "1234");
    assert_eq!(to_js(&-5isize), "-5");
    assert_eq!(to_js(&isize::MIN), format!("{}", isize::MIN));
    assert_eq!(to_js(&"Paris".to_string()), "\"Paris\"");
    assert_eq!(to_js(&vec![1u8, 2, 3]), "[1, 2, 3]");
    assert_eq!(to_js(&Vec::<u8>::new()), "[]");
    assert_eq!(to_js(&RawIdent { name: "__map".to_string() }), "__map");
}

#[test]
fn object_with_entries() {
    let mut obj = JavaScriptObject::new();
    obj.entry("zoom", &6u8);
    obj.entry_opt("mapTypeId", &Some(MapType::Hybrid));
    obj.entry_opt::<bool>("disableDefaultUI", &None);
    obj.entry("visible", &true);
    assert_eq!(obj.finish(), "{ zoom: 6, mapTypeId: google.maps.MapTypeId.HYBRID, visible: true }");
}

#[test]
fn empty_object() {
    let mut obj = JavaScriptObject::new();
    obj.entry_opt::<u8>("zoom", &None);
    assert_eq!(obj.finish(), "{  }");
}

#[test]
fn appends_to_existing_text() {
    let mut s = "x = ".to_string();
    Color::Navy.fmt_js(&mut s);
    assert_eq!(s, "x = \"navy\"");
}

#[test]
fn decimals() {
    assert_eq!(decimal_string(0), "0");
    assert_eq!(decimal_string(10), "10");
    assert_eq!(decimal_string(u64::MAX), u64::MAX.to_string());
}

#[test]
fn raw_entries_keep_their_text() {
    let mut obj = JavaScriptObject::new();
    obj.raw_entry("center", "new google.maps.LatLng(1.5, -2)");
    obj.entry("zoom", &3u8);
    assert_eq!(obj.finish(), "{ center: new google.maps.LatLng(1.5, -2), zoom: 3 }");
}

#[test]
fn constructor_calls() {
    let mut obj = JavaScriptObject::new();
    obj.raw_entry("map", "__map");
    assert_eq!(constructor_call("Marker", obj), "new google.maps.Marker({ map: __map })");
}

#[test]
fn map_script_lists_shapes() {
    let mut obj = JavaScriptObject::new();
    obj.entry("zoom", &6u8);
    let ident = RawIdent { name: "__map".to_string() };
    let shapes = vec!["a()".to_string(), "b()".to_string()];
    assert_eq!(
        map_script(&ident, obj, &shapes),
        "\t\tconst __map = new google.maps.Map(document.getElementById(\"map_canvas\"), { zoom: 6 });\n\n\t\ta();\n\t\tb();\n"
    );
    let obj = JavaScriptObject::new();
    assert_eq!(
        map_script(&ident, obj, &Vec::new()),
        "\t\tconst __map = new google.maps.Map(document.getElementById(\"map_canvas\"), {  });\n\n"
    );
}

#[test]
fn page_has_title_key_and_script() {
    let page = html_page(&Some("Paris".to_string()), "KEY", "go();");
    assert!(page.starts_with("\n<html>\n<head>\n"));
    assert!(page.contains("<title>Paris</title>"));
    assert!(page.contains("sensor=true_or_false&key=KEY\"></script>"));
    assert!(page.contains("\tfunction initialize() {\ngo();\n\t}\n</script>"));
    assert!(page.ends_with("</body>\n</html>\n"));
    let untitled = html_page(&None, "KEY", "");
    assert!(untitled.contains("<title>Google Maps - mapplot</title>"));
}
