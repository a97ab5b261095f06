//! What a tile loader decides: the URL of a tile, whether a response
//! succeeded, which image formats are accepted, and how an image becomes a
//! placeable tile. The requests themselves are made by the caller.

use crate::image::{opt_view, Tile};
use crate::text::{decimal, push_decimal};
use vstd::prelude::*;

verus! {

/// reqwest's error of a failed request, carried through unopened.
#[verifier::external_type_specification]
#[verifier::external_body]
pub struct ExReqwestError(reqwest::Error);

/// Why a tile could not be loaded.
#[derive(Debug)]
pub enum TilesetLoaderError {
    /// The request itself failed.
    Reqwest(reqwest::Error),
    /// The server answered with a status other than success.
    ApiError { status_code: u16, text: String },
    /// The body is not a PNG or JPEG image; holds the detected MIME type.
    UnexpectedMimeType(Option<String>),
}

/// The image formats a tile may come in.
#[derive(Clone, Copy, Debug, PartialEq, Eq, Structural)]
pub enum ImageFormat {
    Png,
    Jpeg,
}

impl ImageFormat {
    pub open spec fn mime_spec(self) -> Seq<char> {
        match self {
            ImageFormat::Png => "image/png"@,
            ImageFormat::Jpeg => "image/jpeg"@,
        }
    }

    /// The MIME type of the format.
    pub fn mime_type(&self) -> (r: &'static str)
        ensures
            r@ == self.mime_spec(),
    {
        match self {
            ImageFormat::Png => "image/png",
            ImageFormat::Jpeg => "image/jpeg",
        }
    }
}

/// The accepted format whose MIME type is `mime`, if any.
pub open spec fn format_of_mime(mime: Option<Seq<char>>) -> Option<ImageFormat> {
    match mime {
        Some(m) => if m == "image/png"@ {
            Some(ImageFormat::Png)
        } else if m == "image/jpeg"@ {
            Some(ImageFormat::Jpeg)
        } else {
            None
        },
        None => None,
    }
}

/// Accepts a detected MIME type if it is PNG or JPEG; any other type, or
/// none, is an error that carries what was detected.
pub fn image_format(mime: Option<String>) -> (r: Result<ImageFormat, TilesetLoaderError>)
    ensures
        match format_of_mime(opt_view(mime)) {
            Some(f) => r == Ok::<ImageFormat, TilesetLoaderError>(f),
            None => r matches Err(TilesetLoaderError::UnexpectedMimeType(m)) && opt_view(m)
                == opt_view(mime),
        },
{
    match mime {
        Some(m) => {
            let png = String::from_str("image/png");
            let jpeg = String::from_str("image/jpeg");
            if m == png {
                Ok(ImageFormat::Png)
            } else if m == jpeg {
                Ok(ImageFormat::Jpeg)
            } else {
                Err(TilesetLoaderError::UnexpectedMimeType(Some(m)))
            }
        },
        None => Err(TilesetLoaderError::UnexpectedMimeType(None)),
    }
}

/// Whether an HTTP status code means the tile was delivered.
pub fn is_success(status_code: u16) -> (r: bool)
    ensures
        r == (status_code == 200),
{
    status_code == 200
}

/// The MIME type that the `infer` crate detects in `bytes`.
pub uninterp spec fn inferred_mime(bytes: Seq<u8>) -> Option<Seq<char>>;

/// The standard, padded base64 encoding of `bytes`.
pub uninterp spec fn base64_of(bytes: Seq<u8>) -> Seq<char>;

/// Relies on `infer::get` and the `mime_type` of the `Type` it returns: the
/// MIME type of the first known format whose signature the bytes carry.
#[verifier::external_body]
fn detect_mime(bytes: &[u8]) -> (r: Option<String>)
    ensures
        opt_view(r) == inferred_mime(bytes@),
{
    infer::get(bytes).map(|t| t.mime_type().to_string())
}

/// Relies on `base64::encode`: the standard alphabet, with padding.
#[verifier::external_body]
fn encode_base64(bytes: &[u8]) -> (r: String)
    ensures
        r@ == base64_of(bytes@),
{
    base64::encode(bytes)
}

pub open spec fn data_url_spec(format: ImageFormat, encoded: Seq<char>) -> Seq<char> {
    "data:"@ + format.mime_spec() + ";base64,"@ + encoded
}

/// A `data:` URL of an image in `format`, from its base64 text.
pub fn data_url(format: ImageFormat, encoded: &str) -> (r: String)
    ensures
        r@ == data_url_spec(format, encoded@),
{
    let mut s = String::from_str("data:");
    s.append(format.mime_type());
    s.append(";base64,");
    s.append(encoded);
    s
}

/// Makes the tile `index` from an image's bytes: the bytes must hold a PNG
/// or JPEG image, which becomes a base64 `data:` URL.
pub fn tile_from_image(index: (u32, u32), bytes: &[u8]) -> (r: Result<Tile, TilesetLoaderError>)
    ensures
        match format_of_mime(inferred_mime(bytes@)) {
            Some(f) => r matches Ok(t) && t.index == index && t.href@ == data_url_spec(
                f,
                base64_of(bytes@),
            ),
            None => r matches Err(TilesetLoaderError::UnexpectedMimeType(m)) && opt_view(m)
                == inferred_mime(bytes@),
        },
{
    let mime = detect_mime(bytes);
    match image_format(mime) {
        Ok(format) => {
            let encoded = encode_base64(bytes);
            Ok(Tile::new(index, data_url(format, encoded.as_str())))
        },
        Err(e) => Err(e),
    }
}

/// Loads tiles of a Mapbox tileset.
#[derive(Debug, Clone)]
pub struct MapboxTilesetLoader {
    tileset: String,
    hires: bool,
    token: String,
}

impl MapboxTilesetLoader {
    pub closed spec fn tileset(self) -> Seq<char> {
        self.tileset@
    }

    pub closed spec fn hires(self) -> bool {
        self.hires
    }

    pub closed spec fn token(self) -> Seq<char> {
        self.token@
    }

    /// A loader of `tileset`, at double resolution if `hires`, that
    /// authenticates with `token`.
    pub fn new(tileset: &str, hires: bool, token: &str) -> (r: MapboxTilesetLoader)
        ensures
            r.tileset() == tileset@,
            r.hires() == hires,
            r.token() == token@,
    {
        MapboxTilesetLoader {
            tileset: String::from_str(tileset),
            hires,
            token: String::from_str(token),
        }
    }

    pub open spec fn tile_url_spec(self, zoom: u8, x: u32, y: u32) -> Seq<char> {
        "https://api.mapbox.com/v4/"@ + self.tileset() + "/"@ + decimal(zoom as nat) + "/"@
            + decimal(x as nat) + "/"@ + decimal(y as nat) + (if self.hires() {
            "@2x"@
        } else {
            Seq::empty()
        }) + ".png?access_token="@ + self.token()
    }

    /// The URL of tile (`x`, `y`) at `zoom`.
    pub fn tile_url(&self, zoom: u8, x: u32, y: u32) -> (r: String)
        ensures
            r@ == self.tile_url_spec(zoom, x, y),
    {
        let mut s = String::from_str("https://api.mapbox.com/v4/");
        s.append(self.tileset.as_str());
        s.append("/");
        push_decimal(&mut s, zoom as u128);
        s.append("/");
        push_decimal(&mut s, x as u128);
        s.append("/");
        push_decimal(&mut s, y as u128);
        let ghost before = s@;
        if self.hires {
            s.append("@2x");
        }
        assert(s@ == before + (if self.hires {
            "@2x"@
        } else {
            Seq::<char>::empty()
        }));
        s.append(".png?access_token=");
        s.append(self.token.as_str());
        assert(s@ =~= self.tile_url_spec(zoom, x, y));
        s
    }
}

} // verus!
