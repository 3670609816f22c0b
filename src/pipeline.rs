use vstd::prelude::*;
use vstd::string::*;

use crate::cache::{cache_name, is_stem, Cache, CachePayload};
use crate::error::{CrateResult, Error};
use crate::format::{extension_of, FileExtension, Format};
use crate::s3::{endpoint_accepted, DownloadClient, RawImage};

verus! {

/// A decoded image as 8-bit RGB samples, row by row.
#[derive(Debug, Clone)]
pub struct Picture {
    pub width: u32,
    pub height: u32,
    pub pixels: Vec<u8>,
}

/// Width, height and samples of a picture.
pub open spec fn picture_view(p: Picture) -> (u32, u32, Seq<u8>) {
    (p.width, p.height, p.pixels@)
}

/// Three samples for each pixel.
pub open spec fn well_sized(p: (u32, u32, Seq<u8>)) -> bool {
    p.2.len() == 3 * p.0 * p.1
}

/// What decoding `bytes` as `format` and converting to RGB gives, if it
/// decodes.
pub uninterp spec fn decoded(bytes: Seq<u8>, format: Format) -> Option<(u32, u32, Seq<u8>)>;

/// Relies on image::load_from_memory_with_format and `to_rgb8`: the outcome
/// depends on the bytes and the format alone, and an RGB buffer holds three
/// samples per pixel.
#[verifier::external_body]
fn decode(bytes: &[u8], format: Format) -> (r: Option<Picture>)
    ensures
        r is Some <==> decoded(bytes@, format) is Some,
        r is Some ==> picture_view(r->Some_0) == decoded(bytes@, format)->Some_0
            && well_sized(picture_view(r->Some_0)),
{
    let f = match format {
        Format::Jpeg => image::ImageFormat::Jpeg,
        Format::Png => image::ImageFormat::Png,
        Format::Webp => image::ImageFormat::WebP,
        Format::Avif => image::ImageFormat::Avif,
    };
    let img = image::load_from_memory_with_format(bytes, f).ok()?.to_rgb8();
    Some(Picture { width: img.width(), height: img.height(), pixels: img.into_raw() })
}

/// What fitting a picture within `width` x `height` gives.
pub uninterp spec fn thumbnailed(p: (u32, u32, Seq<u8>), width: u32, height: u32) -> (u32, u32, Seq<u8>);

/// Relies on image::DynamicImage::thumbnail: the new size comes from
/// `resize_dimensions`, which scales both sides by the smaller of the two
/// ratios, so each side is at least 1 and at most its bound, and for a
/// non-empty source one side meets its bound.
#[verifier::external_body]
fn thumbnail(p: &Picture, width: u32, height: u32) -> (r: Picture)
    requires
        width > 0,
        height > 0,
        well_sized(picture_view(*p)),
    ensures
        picture_view(r) == thumbnailed(picture_view(*p), width, height),
        1 <= r.width <= width,
        1 <= r.height <= height,
        p.width > 0 && p.height > 0 ==> r.width == width || r.height == height,
        well_sized(picture_view(r)),
{
    let buf = image::RgbImage::from_raw(p.width, p.height, p.pixels.clone()).unwrap();
    let t = image::DynamicImage::ImageRgb8(buf).thumbnail(width, height).to_rgb8();
    Picture { width: t.width(), height: t.height(), pixels: t.into_raw() }
}

/// The bytes of a picture encoded as `format`, if the encoder accepts it.
pub uninterp spec fn encoded(p: (u32, u32, Seq<u8>), format: Format) -> Option<Seq<u8>>;

/// Relies on image::DynamicImage::write_to: the outcome depends on the
/// picture and the format alone. The encoders assert that the buffer holds
/// exactly three samples per pixel, so other sizes are excluded.
#[verifier::external_body]
fn encode(p: &Picture, format: Format) -> (r: Option<Vec<u8>>)
    requires
        well_sized(picture_view(*p)),
    ensures
        r is Some <==> encoded(picture_view(*p), format) is Some,
        r is Some ==> r->Some_0@ == encoded(picture_view(*p), format)->Some_0,
{
    let f = match format {
        Format::Jpeg => image::ImageFormat::Jpeg,
        Format::Png => image::ImageFormat::Png,
        Format::Webp => image::ImageFormat::WebP,
        Format::Avif => image::ImageFormat::Avif,
    };
    let buf = image::RgbImage::from_raw(p.width, p.height, p.pixels.clone())?;
    let mut w = std::io::Cursor::new(Vec::new());
    image::DynamicImage::ImageRgb8(buf).write_to(&mut w, f).ok()?;
    Some(w.into_inner())
}

/// The single format every transform is encoded to.
pub const OUTPUT_FORMAT: Format = Format::Jpeg;

/// The picture unchanged when either target dimension is zero, else fitted
/// within the target box.
pub open spec fn output_picture(p: (u32, u32, Seq<u8>), width: u32, height: u32) -> (u32, u32, Seq<u8>) {
    if width == 0 || height == 0 {
        p
    } else {
        thumbnailed(p, width, height)
    }
}

/// Leaves the image as it is when either target dimension is zero, else
/// fits it within the target box.
pub fn get_output_image(image: Picture, width: u32, height: u32) -> (r: Picture)
    requires
        well_sized(picture_view(image)),
    ensures
        picture_view(r) == output_picture(picture_view(image), width, height),
        well_sized(picture_view(r)),
        width == 0 || height == 0 ==> r.width == image.width && r.height == image.height,
        width > 0 && height > 0 ==> 1 <= r.width <= width && 1 <= r.height <= height,
        width > 0 && height > 0 && image.width > 0 && image.height > 0
            ==> r.width == width || r.height == height,
{
    if width == 0 || height == 0 {
        return image;
    }
    thumbnail(&image, width, height)
}

/// An encoded image with its dimensions and a file name for it.
pub struct WritePayload {
    pub vec: Vec<u8>,
    pub width: u32,
    pub height: u32,
    pub filename_ext: String,
    pub format: Format,
}

/// Encodes `image` as `format`; the file name gets the format's extension.
/// A picture whose sample count is not three per pixel is refused.
pub fn write(image: &Picture, format: Format, filename: &str) -> (r: CrateResult<WritePayload>)
    ensures
        r is Ok <==> well_sized(picture_view(*image)) && encoded(picture_view(*image), format) is Some,
        r is Err ==> r == Err::<WritePayload, Error>(Error::ImageEncode),
        r is Ok ==> r->Ok_0.vec@ == encoded(picture_view(*image), format)->Some_0
            && r->Ok_0.width == image.width && r->Ok_0.height == image.height
            && r->Ok_0.format == format
            && r->Ok_0.filename_ext@ == filename@ + extension_of(format),
{
    let w = image.width as u128;
    let h = image.height as u128;
    assert(w * h <= 0xffff_ffff * 0xffff_ffff) by (nonlinear_arith)
        requires
            w <= 0xffff_ffff,
            h <= 0xffff_ffff,
    ;
    assert(3 * (w * h) == 3 * image.width * image.height) by (nonlinear_arith)
        requires
            w == image.width,
            h == image.height,
    ;
    if image.pixels.len() as u128 != 3 * (w * h) {
        return Err(Error::ImageEncode);
    }
    let vec = match encode(image, format) {
        Some(v) => v,
        None => return Err(Error::ImageEncode),
    };
    let mut filename_ext = String::from_str(filename);
    filename_ext.append(FileExtension::from(format).to_string());
    Ok(WritePayload { vec, width: image.width, height: image.height, filename_ext, format })
}

/// The bytes a transform answers with, or the stage that failed.
pub open spec fn transform_outcome(bytes: Seq<u8>, format: Format, width: u32, height: u32) -> Result<Seq<u8>, Error> {
    match decoded(bytes, format) {
        None => Err(Error::ImageDecode),
        Some(p) => match encoded(output_picture(p, width, height), OUTPUT_FORMAT) {
            None => Err(Error::ImageEncode),
            Some(v) => Ok(v),
        },
    }
}

/// Decodes, resizes and re-encodes a fetched image to the output format,
/// naming the result after `object`.
pub fn transform(raw: &RawImage, object: &str, width: u32, height: u32) -> (r: CrateResult<WritePayload>)
    ensures
        match transform_outcome(raw.bytes@, raw.format, width, height) {
            Ok(v) => r is Ok && r->Ok_0.vec@ == v && r->Ok_0.format == OUTPUT_FORMAT
                && r->Ok_0.filename_ext@ == object@ + extension_of(OUTPUT_FORMAT),
            Err(e) => r is Err && r->Err_0 == e,
        },
{
    let image = match decode(raw.bytes.as_slice(), raw.format) {
        Some(i) => i,
        None => return Err(Error::ImageDecode),
    };
    let resized = get_output_image(image, width, height);
    write(&resized, OUTPUT_FORMAT, object)
}

/// Where a request stands between two storage round trips.
pub enum Stage {
    /// Waiting for the cached result.
    CheckCache,
    /// Waiting for the original object.
    Fetch,
    /// Waiting for the cache write; `output` is the answer already computed.
    CacheWrite { output: Vec<u8> },
    /// Answered.
    Done,
}

/// What the host must do next.
pub enum Step {
    /// GET the named object and report with `on_fetched`.
    Fetch(String),
    /// PUT the bytes under the name with the format's content type and
    /// report with `on_stored`.
    Store(String, Vec<u8>, Format),
    /// Answer the caller.
    Respond(CrateResult<Vec<u8>>),
}

/// One transform request.
pub struct Request {
    pub object: String,
    pub width: u32,
    pub height: u32,
    pub stage: Stage,
}

/// The cache identity of a request: the object's stem, the requested width
/// and height, and the output format. Lookup and write use the same one, so
/// a repeated request finds what the first one stored.
pub open spec fn request_key(object: Seq<char>, width: u32, height: u32, key: CachePayload) -> bool {
    is_stem(object, key.object@) && key.width == Some(width) && key.height == Some(height)
        && key.format == OUTPUT_FORMAT
}

/// `name` is the cache object name of a request.
pub open spec fn is_request_cache_name(prefix: Option<String>, object: Seq<char>, width: u32, height: u32, name: Seq<char>) -> bool {
    exists|k: CachePayload| request_key(object, width, height, k) && name == cache_name(prefix, k)
}

/// A name has one stem.
pub proof fn stem_unique(s: Seq<char>, t: Seq<char>, u: Seq<char>)
    requires
        is_stem(s, t),
        is_stem(s, u),
    ensures
        t == u,
{
    if t.len() < u.len() {
        assert(u[t.len() as int] == s[t.len() as int]);
    } else if u.len() < t.len() {
        assert(t[u.len() as int] == s[u.len() as int]);
    }
    assert(t =~= u);
}

/// A request has one cache object name: the name it is looked up under is
/// the name it is written under.
pub proof fn request_cache_name_unique(prefix: Option<String>, object: Seq<char>, width: u32, height: u32, a: Seq<char>, b: Seq<char>)
    requires
        is_request_cache_name(prefix, object, width, height, a),
        is_request_cache_name(prefix, object, width, height, b),
    ensures
        a == b,
{
    let ka = choose|k: CachePayload| request_key(object, width, height, k) && a == cache_name(prefix, k);
    let kb = choose|k: CachePayload| request_key(object, width, height, k) && b == cache_name(prefix, k);
    stem_unique(object, ka.object@, kb.object@);
}

impl Request {
    /// Begins with a cache lookup under the request's identity.
    pub fn start(cache: &Cache, object: String, width: u32, height: u32) -> (r: (Request, Step))
        ensures
            r.0.object == object && r.0.width == width && r.0.height == height,
            r.0.stage is CheckCache,
            r.1 is Fetch && is_request_cache_name(cache.prefix, object@, width, height, r.1->Fetch_0@),
    {
        let key = CachePayload::new(object.as_str(), Some(width), Some(height), OUTPUT_FORMAT);
        let name = cache.full_title(&key);
        assert(request_key(object@, width, height, key));
        (Request { object, width, height, stage: Stage::CheckCache }, Step::Fetch(name))
    }

    /// Takes the answer to the pending GET. A cached object is returned as
    /// it is; a failed lookup falls back to the original; the original is
    /// transformed and written to the cache under the request's identity.
    pub fn on_fetched(self, cache: &Cache, fetched: CrateResult<RawImage>) -> (r: (Request, Step))
        requires
            self.stage is CheckCache || self.stage is Fetch,
        ensures
            r.0.object == self.object && r.0.width == self.width && r.0.height == self.height,
            self.stage is CheckCache && fetched is Ok ==> r.0.stage is Done
                && r.1 is Respond && r.1->Respond_0 is Ok
                && r.1->Respond_0->Ok_0@ == fetched->Ok_0.bytes@,
            self.stage is CheckCache && fetched is Err ==> r.0.stage is Fetch
                && r.1 is Fetch && r.1->Fetch_0@ == self.object@,
            self.stage is Fetch && fetched is Err ==> r.0.stage is Done
                && r.1 is Respond && r.1->Respond_0 == Err::<Vec<u8>, Error>(fetched->Err_0),
            self.stage is Fetch && fetched is Ok ==> match transform_outcome(
                fetched->Ok_0.bytes@, fetched->Ok_0.format, self.width, self.height) {
                Ok(v) => r.0.stage is CacheWrite && r.0.stage->output@ == v
                    && r.1 is Store && r.1->Store_1@ == v && r.1->Store_2 == OUTPUT_FORMAT
                    && is_request_cache_name(cache.prefix, self.object@, self.width, self.height, r.1->Store_0@),
                Err(e) => r.0.stage is Done && r.1 is Respond
                    && r.1->Respond_0 == Err::<Vec<u8>, Error>(e),
            },
    {
        let Request { object, width, height, stage } = self;
        match stage {
            Stage::CheckCache => match fetched {
                Ok(raw) => (Request { object, width, height, stage: Stage::Done }, Step::Respond(Ok(raw.bytes))),
                Err(_) => {
                    let name = object.clone();
                    (Request { object, width, height, stage: Stage::Fetch }, Step::Fetch(name))
                },
            },
            _ => match fetched {
                Err(e) => (Request { object, width, height, stage: Stage::Done }, Step::Respond(Err(e))),
                Ok(raw) => match transform(&raw, object.as_str(), width, height) {
                    Err(e) => (Request { object, width, height, stage: Stage::Done }, Step::Respond(Err(e))),
                    Ok(written) => {
                        let WritePayload { vec: bytes, format, .. } = written;
                        let key = CachePayload::new(object.as_str(), Some(width), Some(height), format);
                        let name = cache.full_title(&key);
                        let stored = bytes.clone();
                        assert(request_key(object@, width, height, key));
                        (
                            Request { object, width, height, stage: Stage::CacheWrite { output: bytes } },
                            Step::Store(name, stored, format),
                        )
                    },
                },
            },
        }
    }

    /// Takes the answer to the cache write: the computed output is returned
    /// whether or not the write succeeded.
    pub fn on_stored(self, stored: CrateResult<()>) -> (r: (Request, Step))
        requires
            self.stage is CacheWrite,
        ensures
            r.0.stage is Done,
            r.1 is Respond && r.1->Respond_0 is Ok
                && r.1->Respond_0->Ok_0@ == self.stage->output@,
    {
        let Request { object, width, height, stage } = self;
        match stage {
            Stage::CacheWrite { output } => (Request { object, width, height, stage: Stage::Done }, Step::Respond(Ok(output))),
            _ => (Request { object, width, height, stage: Stage::Done }, Step::Respond(Ok(Vec::new()))),
        }
    }
}

/// The proxy's shared, read-only configuration.
pub struct App {
    pub download_client: DownloadClient,
    pub cache: Cache,
}

impl App {
    /// Caches transforms under the `cache` prefix.
    pub fn new(endpoint: &str, host_rewrite: String, name: String, region: String, key: &str, secret: &str) -> (r: CrateResult<App>)
        ensures
            r is Ok <==> endpoint_accepted(endpoint@, name@, region@),
            r is Ok ==> r->Ok_0.cache.prefix is Some && r->Ok_0.cache.prefix->Some_0@ == "cache"@
                && r->Ok_0.download_client.cdn_host() == host_rewrite@,
            r is Err ==> r == Err::<App, Error>(Error::Configuration),
    {
        let download_client = DownloadClient::new(endpoint, host_rewrite, name, region, key, secret)?;
        let cache = Cache { prefix: Some(String::from_str("cache")) };
        Ok(App { download_client, cache })
    }
}

} // verus!
