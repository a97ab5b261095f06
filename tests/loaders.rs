use mapplot::loaders::{
    data_url, image_format, is_success, tile_from_image, ImageFormat, MapboxTilesetLoader,
    TilesetLoaderError,
};

const PNG: [u8; 8] = [0x89, 0x50, 0x4E, 0x47, 0x0D, 0x0A, 0x1A, 0x0A];
const JPEG: [u8; 4] = [0xFF, 0xD8, 0xFF, 0xE0];

#[test]
fn tile_url_low_resolution() {
    let loader = MapboxTilesetLoader::new("mapbox.satellite", false, "tok");
    assert_eq!(
        loader.tile_url(10, 523, 337),
        "https://api.mapbox.com/v4/mapbox.satellite/10/523/337.png?access_token=tok"
    );
}

#[test]
fn tile_url_high_resolution() {
    let loader = MapboxTilesetLoader::new("mapbox.streets", true, "SECRET-REDACTED");
    assert_eq!(
        loader.tile_url(0, 0, 0),
        "https://api.mapbox.com/v4/mapbox.streets/0/0/0@2x.png?access_token=SECRET-REDACTED"
    );
}

#[test]
fn only_ok_is_success() {
    assert!(is_success(200));
    assert!(!is_success(204));
    assert!(!is_success(404));
    assert!(!is_success(500));
}

#[test]
fn accepted_formats() {
    assert_eq!(image_format(Some("image/png".to_string())).unwrap(), ImageFormat::Png);
    assert_eq!(image_format(Some("image/jpeg".to_string())).unwrap(), ImageFormat::Jpeg);
    assert_eq!(ImageFormat::Png.mime_type(), "image/png");
    assert_eq!(ImageFormat::Jpeg.mime_type(), "image/jpeg");
}

#[test]
fn other_formats_are_refused() {
    match image_format(Some("image/gif".to_string())) {
        Err(TilesetLoaderError::UnexpectedMimeType(Some(m))) => assert_eq!(m, "image/gif"),
        other => panic!("unexpected {:?}", other),
    }
    match image_format(None) {
        Err(TilesetLoaderError::UnexpectedMimeType(None)) => {}
        other => panic!("unexpected {:?}", other),
    }
}

#[test]
fn data_url_of_png() {
    assert_eq!(data_url(ImageFormat::Png, "QUJD"), "data:image/png;base64,QUJD");
    assert_eq!(data_url(ImageFormat::Jpeg, ""), "data:image/jpeg;base64,");
}

#[test]
fn png_bytes_become_a_tile() {
    let tile = tile_from_image((3, 4), &PNG).unwrap();
    assert_eq!(tile.index, (3, 4));
    assert_eq!(tile.href, "data:image/png;base64,iVBORw0KGgo=");
}

#[test]
fn jpeg_bytes_become_a_tile() {
    let tile = tile_from_image((0, 1), &JPEG).unwrap();
    assert_eq!(tile.index, (0, 1));
    assert_eq!(tile.href, "data:image/jpeg;base64,/9j/4A==");
}

#[test]
fn gif_bytes_are_refused() {
    match tile_from_image((0, 0), b"GIF89a\x01\x00\x01\x00") {
        Err(TilesetLoaderError::UnexpectedMimeType(Some(m))) => assert_eq!(m, "image/gif"),
        other => panic!("unexpected {:?}", other),
    }
}

#[test]
fn unknown_bytes_are_refused() {
    match tile_from_image((0, 0), &[1, 2, 3]) {
        Err(TilesetLoaderError::UnexpectedMimeType(None)) => {}
        other => panic!("unexpected {:?}", other),
    }
}
