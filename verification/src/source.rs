use vstd::prelude::*;

use crate::errors::IconError;

verus! {

#[verifier::external_type_specification]
#[verifier::external_body]
pub struct ExDynamicImage(image::DynamicImage);

/// The source image formats the pipeline accepts, keyed off the source
/// response's content-type header.
#[derive(Clone, Copy, Debug, PartialEq, Eq, Structural)]
pub enum SourceFormat {
    Jpeg,
    Png,
    Gif,
}

/// What decoding comes to: the native pixel dimensions the codec reads off
/// the bytes, or `None` when they do not decode as the format. The outcome
/// is a function of the bytes and the format alone.
pub uninterp spec fn spec_decoded(bytes: Seq<u8>, format: SourceFormat) -> Option<(nat, nat)>;

/// A decoded raster image together with what the pipeline reads of it: its
/// pixel dimensions, and whether its color type is one the PNG encoder
/// accepts. Only the decoding and resizing wrappers build values, so the
/// fields always describe the raster they sit beside.
pub struct SourceImage {
    pub(crate) img: image::DynamicImage,
    pub(crate) width: u32,
    pub(crate) height: u32,
    pub(crate) png_encodable: bool,
}

impl SourceImage {
    /// The raster's width in pixels.
    pub closed spec fn spec_width(self) -> u32 {
        self.width
    }

    /// The raster's height in pixels.
    pub closed spec fn spec_height(self) -> u32 {
        self.height
    }

    /// The raster's color type is one the PNG encoder accepts (everything
    /// the supported source formats decode to; only float-sampled rasters
    /// fall outside).
    pub closed spec fn spec_png_encodable(self) -> bool {
        self.png_encodable
    }

    /// The raster's width in pixels.
    pub fn width(&self) -> (w: u32)
        ensures
            w == self.spec_width(),
    {
        self.width
    }

    /// The raster's height in pixels.
    pub fn height(&self) -> (h: u32)
        ensures
            h == self.spec_height(),
    {
        self.height
    }
}

/// The format a content-type header denotes, by exact string match; `None`
/// for every unrecognized value.
pub open spec fn spec_detect(s: Seq<char>) -> Option<SourceFormat> {
    if s == "image/jpeg"@ {
        Some(SourceFormat::Jpeg)
    } else if s == "image/png"@ {
        Some(SourceFormat::Png)
    } else if s == "image/gif"@ {
        Some(SourceFormat::Gif)
    } else {
        None
    }
}

/// The two strings hold the same characters.
fn str_eq(a: &str, b: &str) -> (r: bool)
    ensures
        r == (a@ == b@),
{
    let n = a.unicode_len();
    let m = b.unicode_len();
    if n != m {
        return false;
    }
    let mut k: usize = 0;
    while k < m
        invariant
            0 <= k <= m,
            n == a@.len(),
            m == b@.len(),
            n == m,
            forall|j: int| 0 <= j < k ==> a@[j] == b@[j],
        decreases m - k,
    {
        if a.get_char(k) != b.get_char(k) {
            return false;
        }
        k += 1;
    }
    proof {
        assert(a@ =~= b@);
    }
    true
}

/// Maps a source content-type to its image format by exact match: exactly
/// `image/jpeg`, `image/png` and `image/gif` are known; any other value is an
/// unknown source format, reported with the offending header value.
pub fn detect_image_format(content_type: &str) -> (r: Result<SourceFormat, IconError>)
    ensures
        ({
            match spec_detect(content_type@) {
                Some(f) => r == Ok::<SourceFormat, IconError>(f),
                None => (r matches Err(e) && e matches IconError::UnknownSourceFormat {
                    content_type: c,
                } && c matches Some(t) && t@ == content_type@),
            }
        }),
{
    if str_eq(content_type, "image/jpeg") {
        Ok(SourceFormat::Jpeg)
    } else if str_eq(content_type, "image/png") {
        Ok(SourceFormat::Png)
    } else if str_eq(content_type, "image/gif") {
        Ok(SourceFormat::Gif)
    } else {
        Err(
            IconError::UnknownSourceFormat {
                content_type: Some(String::from_str(content_type)),
            },
        )
    }
}

/// Relies on `image::load_from_memory_with_format`: it decodes the bytes as
/// the given format exactly when `spec_decoded` is `Some`, and then the
/// image's `width`/`height` are those native dimensions. The JPEG, PNG and
/// GIF decoders only ever produce 8- or 16-bit-sample color types (the PNG
/// decoder refuses lower depths, JPEG yields L8/L16/Rgb8, GIF yields Rgba8),
/// all of which the PNG encoder accepts. The codec error's `to_string`
/// supplies the diagnostic on failure.
#[verifier::external_body]
fn decode_image(bytes: &Vec<u8>, format: SourceFormat) -> (r: Result<SourceImage, String>)
    ensures
        r is Ok <==> spec_decoded(bytes@, format) is Some,
        r matches Ok(img) ==> spec_decoded(bytes@, format) == Some(
            ((img.spec_width() as nat), (img.spec_height() as nat)),
        ) && img.spec_png_encodable(),
{
    let fmt = match format {
        SourceFormat::Jpeg => image::ImageFormat::Jpeg,
        SourceFormat::Png => image::ImageFormat::Png,
        SourceFormat::Gif => image::ImageFormat::Gif,
    };
    match image::load_from_memory_with_format(bytes, fmt) {
        Ok(img) => {
            let width = img.width();
            let height = img.height();
            Ok(SourceImage { img, width, height, png_encodable: true })
        },
        Err(e) => Err(e.to_string()),
    }
}

/// What decoding the source must come to, given the content-type header the
/// source answered with and the body bytes: a missing header and an
/// unrecognized one are both unknown source formats, told apart only by the
/// carried value (and the body is never touched); under a recognized format,
/// bytes that decode yield the image with its native dimensions (and a
/// PNG-encodable color type), and bytes that do not decode yield the codec's
/// diagnostic. No other outcome exists.
pub open spec fn decode_outcome(
    r: Result<SourceImage, IconError>,
    ct: Option<String>,
    body: Seq<u8>,
) -> bool {
    match ct {
        None => r matches Err(e) && e matches IconError::UnknownSourceFormat {
            content_type: c,
        } && c is None,
        Some(t) => match spec_detect(t@) {
            None => r matches Err(e) && e matches IconError::UnknownSourceFormat {
                content_type: c,
            } && c matches Some(u) && u@ == t@,
            Some(f) => match spec_decoded(body, f) {
                Some(dims) => r matches Ok(img) && img.spec_width() == dims.0
                    && img.spec_height() == dims.1 && img.spec_png_encodable(),
                None => r matches Err(e) && e matches IconError::DecodeError { .. },
            },
        },
    }
}

/// The computing half of the source fetch: reads the content-type the source
/// answered with, maps it to a format, and decodes the body.
pub fn decode_source_image(body: &Vec<u8>, content_type: &Option<String>) -> (r: Result<
    SourceImage,
    IconError,
>)
    ensures
        decode_outcome(r, *content_type, body@),
{
    match content_type {
        None => Err(IconError::UnknownSourceFormat { content_type: None }),
        Some(t) => {
            match detect_image_format(t.as_str()) {
                Err(e) => Err(e),
                Ok(format) => {
                    match decode_image(body, format) {
                        Ok(img) => Ok(img),
                        Err(m) => Err(IconError::DecodeError { message: m }),
                    }
                },
            }
        },
    }
}

} // verus!
