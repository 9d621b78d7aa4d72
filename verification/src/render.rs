use vstd::prelude::*;

use crate::errors::IconError;
use crate::icon::Icon;
use crate::source::SourceFormat;
use crate::source::SourceImage;
use crate::source::spec_decoded;

verus! {

/// The shared-cache freshness window, in seconds, that every rendered
/// response signals downstream (`cache-control: s-maxage=10`).
pub const FRESHNESS_SECONDS: u64 = 10;

/// `b` starts with the eight-byte signature every PNG datastream opens with.
pub open spec fn is_png_signature(b: Seq<u8>) -> bool {
    &&& b.len() >= 8
    &&& b[0] == 137u8
    &&& b[1] == 80u8
    &&& b[2] == 78u8
    &&& b[3] == 71u8
    &&& b[4] == 13u8
    &&& b[5] == 10u8
    &&& b[6] == 26u8
    &&& b[7] == 10u8
}

/// A response ready to serve and to cache: the encoded PNG body and the
/// number of seconds it stays fresh for shared caches.
pub struct CachedResponse {
    pub body: Vec<u8>,
    pub max_age: u64,
}

/// The mathematical content of a response: its bytes and freshness window.
pub struct RespView {
    pub body: Seq<u8>,
    pub max_age: u64,
}

impl View for CachedResponse {
    type V = RespView;

    open spec fn view(&self) -> RespView {
        RespView { body: self.body@, max_age: self.max_age }
    }
}

/// A fresh byte-for-byte copy of `v`.
fn clone_bytes(v: &Vec<u8>) -> (r: Vec<u8>)
    ensures
        r@ == v@,
{
    let mut r: Vec<u8> = Vec::new();
    let mut k: usize = 0;
    while k < v.len()
        invariant
            0 <= k <= v.len(),
            r@ == v@.subrange(0, k as int),
        decreases v.len() - k,
    {
        r.push(v[k]);
        k += 1;
    }
    proof {
        assert(v@.subrange(0, v@.len() as int) =~= v@);
    }
    r
}

impl CachedResponse {
    /// The content-type header every rendered response carries.
    pub fn content_type(&self) -> (r: &'static str)
        ensures
            r@ == "image/png"@,
    {
        "image/png"
    }

    /// An identical response: same bytes, same freshness window.
    pub fn duplicate(&self) -> (r: CachedResponse)
        ensures
            r@ == self@,
    {
        CachedResponse { body: clone_bytes(&self.body), max_age: self.max_age }
    }
}

/// Relies on `image::DynamicImage::resize_exact`, which returns a new image
/// of exactly the dimensions it is given (aspect ratio deliberately not
/// preserved), resampled here with the triangle (linear) filter and keeping
/// the source's pixel type; the dimensions are read back off the resized
/// image.
#[verifier::external_body]
fn resize_exact_triangle(source: &SourceImage, width: u32, height: u32) -> (r: SourceImage)
    requires
        1 <= width <= 500,
        1 <= height <= 500,
    ensures
        r.spec_width() == width,
        r.spec_height() == height,
        r.spec_png_encodable() == source.spec_png_encodable(),
{
    let img = source.img.resize_exact(width, height, image::imageops::FilterType::Triangle);
    let width = img.width();
    let height = img.height();
    SourceImage { img, width, height, png_encodable: source.png_encodable }
}

/// Renders the icon: a new raster of exactly the validated dimensions,
/// whatever the source dimensions were — downscaling and upscaling alike —
/// and with the source's color class kept.
pub fn generate_icon(icon: &Icon, source: &SourceImage) -> (r: SourceImage)
    requires
        icon.spec_valid(),
    ensures
        r.spec_width() == icon.width,
        r.spec_height() == icon.height,
        r.spec_png_encodable() == source.spec_png_encodable(),
{
    resize_exact_triangle(source, icon.width, icon.height)
}

/// Relies on `image::DynamicImage::write_to` with PNG output. On success the
/// buffer holds a PNG datastream: it opens with the eight-byte PNG
/// signature, and its header carries the raster's dimensions, so decoding
/// the bytes as PNG yields them back. Encoding a raster with a
/// PNG-encodable color type and nonzero dimensions into a memory buffer
/// cannot fail: the encoder rejects only unsupported color types and zero
/// width or height, and the buffer never raises a write error. On failure
/// the codec's `to_string` diagnostic is returned.
#[verifier::external_body]
fn encode_png(source: &SourceImage) -> (r: Result<Vec<u8>, String>)
    ensures
        r matches Ok(b) ==> is_png_signature(b@),
        r matches Ok(b) ==> spec_decoded(b@, SourceFormat::Png) == Some(
            ((source.spec_width() as nat), (source.spec_height() as nat)),
        ),
        source.spec_png_encodable() && source.spec_width() >= 1 && source.spec_height() >= 1
            ==> r is Ok,
{
    let mut buf: Vec<u8> = Vec::new();
    let mut cursor = std::io::Cursor::new(&mut buf);
    match source.img.write_to(&mut cursor, image::ImageOutputFormat::Png) {
        Ok(()) => Ok(buf),
        Err(e) => Err(e.to_string()),
    }
}

/// Builds the response around a freshly rendered icon: encodes it as PNG and
/// attaches the freshness window the pipeline serves with. For every raster
/// the decode and resize steps actually produce — PNG-encodable color,
/// nonzero dimensions — success is owed, and the body then decodes back to
/// exactly the raster's dimensions. Encoding failure is possible only
/// outside that set and is reported as an encode error.
pub fn make_response(icon_img: &SourceImage) -> (r: Result<CachedResponse, IconError>)
    ensures
        r matches Ok(resp) ==> is_png_signature(resp.body@) && resp.max_age == FRESHNESS_SECONDS
            && spec_decoded(resp.body@, SourceFormat::Png) == Some(
            ((icon_img.spec_width() as nat), (icon_img.spec_height() as nat)),
        ),
        r matches Err(e) ==> e matches IconError::EncodeError { .. },
        icon_img.spec_png_encodable() && icon_img.spec_width() >= 1 && icon_img.spec_height() >= 1
            ==> r is Ok,
{
    match encode_png(icon_img) {
        Ok(buf) => Ok(CachedResponse { body: buf, max_age: FRESHNESS_SECONDS }),
        Err(m) => Err(IconError::EncodeError { message: m }),
    }
}

} // verus!
