//! The rotation-CAPTCHA pipeline: turning a source image into one rendered
//! challenge plus a registered answer interval, and checking claimed
//! answers against the store.
//!
//! The rotation itself is floating-point resampling and is performed by
//! the caller between `prepare_captcha` (circular extraction plus target
//! draw) and `generate_captcha` (cleanup, render, registration): the
//! contracts of `generate_captcha` hold for every rotated buffer the
//! caller hands back.

use base64::Engine;
use rand::Rng;
use vstd::prelude::*;
use vstd::string::StringExecFns;

use crate::captcha::CaptchaError;
use crate::captcha::CaptchaOption;
use crate::captcha::CaptchaType;
use crate::captcha::LEEWAY_LIMIT;
use crate::raster::alpha_cleanup;
use crate::raster::circular_extract;
use crate::raster::cleanup_pixels;
use crate::raster::diameter_of;
use crate::raster::extract_pixels;
use crate::raster::Image;
use crate::raster::Px;
use crate::store::accepts;
use crate::store::entries_map;
use crate::store::lemma_interval_correctness;
use crate::store::ChallengeStore;

verus! {

/// The container format a rendered challenge is serialized into.
#[derive(Clone, Copy, Debug, PartialEq, Eq, Structural)]
pub enum ImageEncoding {
    Png,
    Jpeg,
}

/// What one `generate` call hands back to the transport layer: the
/// rendered image as a self-describing data URI, and the opaque bearer
/// token the caller must echo back for verification.
#[derive(Debug)]
pub struct CaptchaChallenge {
    pub base64_image: String,
    pub hash_key: String,
}

/// The pixels that `image::imageops::resize` with the Lanczos3 filter
/// produces for the given source pixels, source dimensions and target
/// dimensions: a pure resampling with no hidden nondeterminism.
pub uninterp spec fn resize_of(src: Seq<Px>, sw: nat, sh: nat, nw: nat, nh: nat) -> Seq<Px>;

/// The bytes that serializing the given pixel grid into the given
/// container format produces.
pub uninterp spec fn encoding_of(src: Seq<Px>, w: nat, h: nat, format: ImageEncoding) -> Seq<u8>;

/// Whether serializing the given pixel grid into the given container
/// format succeeds: the encoder is deterministic, so success too depends
/// only on the pixels, the dimensions and the format.
pub uninterp spec fn encodes_ok(src: Seq<Px>, w: nat, h: nat, format: ImageEncoding) -> bool;

/// The text of the standard (RFC 4648, padded) base64 encoding of the
/// given bytes.
pub uninterp spec fn base64_of(bytes: Seq<u8>) -> Seq<char>;

/// Whether a character is an ASCII letter or digit; the identifier
/// alphabet.
pub open spec fn is_alnum_char(c: char) -> bool {
    (48 <= c as u32 <= 57) || (65 <= c as u32 <= 90) || (97 <= c as u32 <= 122)
}

/// The scheme marker that prefixes a rendered challenge in the given
/// format.
pub open spec fn uri_prefix(format: ImageEncoding) -> Seq<char> {
    match format {
        ImageEncoding::Png => "data:image/png;base64,"@,
        ImageEncoding::Jpeg => "data:image/jpeg;base64,"@,
    }
}

/// The data URI of the non-random rendering of a rotated d×d buffer:
/// edge cleanup, resize to the configured dimensions, serialization,
/// base64 with the scheme marker.
pub open spec fn rendered_data_uri(
    rotated: Seq<Px>,
    rw: nat,
    rh: nat,
    ow: nat,
    oh: nat,
    format: ImageEncoding,
) -> Seq<char> {
    uri_prefix(format) + base64_of(
        encoding_of(resize_of(cleanup_pixels(rotated), rw, rh, ow, oh), ow, oh, format),
    )
}

/// When rendering a rotated buffer succeeds: the resized pixels
/// serialize, and the serialized bytes are short enough for their base64
/// text to fit in memory. Serialization of a valid in-memory buffer is
/// not expected to fail, but the encoder decides, so the condition is
/// stated rather than promised.
pub open spec fn render_succeeds(
    rotated: Seq<Px>,
    rw: nat,
    rh: nat,
    ow: nat,
    oh: nat,
    format: ImageEncoding,
) -> bool {
    let resized = resize_of(cleanup_pixels(rotated), rw, rh, ow, oh);
    encodes_ok(resized, ow, oh, format) && encoding_of(resized, ow, oh, format).len()
        <= usize::MAX as int / 2
}

/// Relies on rand::Rng::gen_range over `0..n` (with rand::thread_rng as
/// the generator): the result is strictly below `n`; the call panics on
/// an empty range, which the precondition rules out.
#[verifier::external_body]
fn pick_index(n: usize) -> (r: usize)
    requires
        1 <= n,
    ensures
        r < n,
{
    rand::thread_rng().gen_range(0..n)
}

/// Relies on rand::Rng::gen_range over `-180_000..180_000` (with
/// rand::thread_rng as the generator): a draw over the full 360-degree
/// span in millidegrees, inside that half-open range.
#[verifier::external_body]
fn draw_angle_millideg() -> (r: i64)
    ensures
        -180_000 <= r < 180_000,
{
    rand::thread_rng().gen_range(-180_000i64..180_000i64)
}

/// Relies on rand's Alphanumeric distribution (with rand::thread_rng as
/// the generator): every sampled byte is an ASCII letter or digit, so the
/// 32 collected characters are alphanumeric. Nothing is promised about
/// which identifier comes back.
#[verifier::external_body]
fn fresh_hash_key() -> (r: String)
    ensures
        r@.len() == 32,
        forall|i: int| 0 <= i < r@.len() ==> is_alnum_char(#[trigger] r@[i]),
{
    let mut rng = rand::thread_rng();
    (0..32).map(|_| rng.sample(rand::distributions::Alphanumeric) as char).collect()
}

/// Relies on image::imageops::resize with the Lanczos3 filter: it returns
/// a buffer of exactly the requested dimensions whose pixels depend only
/// on the source pixels, source dimensions and requested dimensions. The
/// output canvas takes four bytes per pixel, which the precondition keeps
/// within usize.
#[verifier::external_body]
fn resize_image(img: &Image, nw: u32, nh: u32) -> (out: Image)
    requires
        img.wf(),
        1 <= img.width,
        1 <= img.height,
        1 <= nw,
        1 <= nh,
        nw as int * nh as int * 4 <= usize::MAX,
    ensures
        out.width == nw,
        out.height == nh,
        out.pixels@.len() == nw as int * nh as int,
        out.pixels@ == resize_of(
            img.pixels@,
            img.width as nat,
            img.height as nat,
            nw as nat,
            nh as nat,
        ),
{
    let raw: Vec<u8> = img.pixels.iter().flat_map(|p| [p.red, p.green, p.blue, p.alpha]).collect();
    let buf = image::RgbaImage::from_raw(img.width, img.height, raw)
        .expect("buffer length matches the dimensions");
    let out = image::imageops::resize(&buf, nw, nh, image::imageops::FilterType::Lanczos3);
    let pixels: Vec<Px> = out.pixels().map(
        |p| Px { red: p.0[0], green: p.0[1], blue: p.0[2], alpha: p.0[3] },
    ).collect();
    Image { width: nw, height: nh, pixels }
}

/// Relies on image::DynamicImage::write_to: serializing an RGBA buffer
/// into a format (converting to a color type the format's encoder
/// supports, RGB for JPEG) is deterministic, so both the bytes and
/// whether the call succeeds depend only on the pixels, the dimensions
/// and the format; any failure is reported as `None`.
#[verifier::external_body]
fn encode_image(img: &Image, format: &ImageEncoding) -> (r: Option<Vec<u8>>)
    requires
        img.wf(),
        1 <= img.width,
        1 <= img.height,
    ensures
        r is Some <==> encodes_ok(img.pixels@, img.width as nat, img.height as nat, *format),
        r matches Some(v) ==> v@ == encoding_of(
            img.pixels@,
            img.width as nat,
            img.height as nat,
            *format,
        ),
{
    let raw: Vec<u8> = img.pixels.iter().flat_map(|p| [p.red, p.green, p.blue, p.alpha]).collect();
    let fmt = match format {
        ImageEncoding::Png => image::ImageFormat::Png,
        ImageEncoding::Jpeg => image::ImageFormat::Jpeg,
    };
    let buf = image::RgbaImage::from_raw(img.width, img.height, raw)?;
    let mut cursor = std::io::Cursor::new(Vec::new());
    image::DynamicImage::ImageRgba8(buf).write_to(&mut cursor, fmt).ok()?;
    Some(cursor.into_inner())
}

/// Relies on base64::engine::general_purpose::STANDARD.encode (RFC 4648
/// standard alphabet, padded): the text depends only on the input bytes,
/// and every three input bytes give four output characters, the tail
/// padded to a multiple of four. The call panics when the encoded length
/// exceeds usize, which the precondition rules out.
#[verifier::external_body]
fn base64_encode(bytes: &Vec<u8>) -> (r: String)
    requires
        4 * ((bytes@.len() + 2) / 3) <= usize::MAX,
    ensures
        r@ == base64_of(bytes@),
        r@.len() == 4 * ((bytes@.len() + 2) / 3),
{
    base64::engine::general_purpose::STANDARD.encode(bytes)
}

/// Wrap serialized image bytes into a data URI: the scheme marker for the
/// format, then the standard base64 text of the bytes. Fails (with
/// `EncodingFailure`) only when the base64 text would not fit in memory.
pub fn encode_data_uri(bytes: &Vec<u8>, format: &ImageEncoding) -> (r: Result<
    String,
    CaptchaError,
>)
    ensures
        r is Ok <==> bytes@.len() <= usize::MAX as int / 2,
        r matches Ok(s) ==> s@ == uri_prefix(*format) + base64_of(bytes@),
        r matches Err(e) ==> e == CaptchaError::EncodingFailure,
{
    if bytes.len() <= usize::MAX / 2 {
        proof {
            vstd::arithmetic::div_mod::lemma_fundamental_div_mod(bytes@.len() as int + 2, 3);
        }
        let b64 = base64_encode(bytes);
        let mut uri = match format {
            ImageEncoding::Png => "data:image/png;base64,".to_owned(),
            ImageEncoding::Jpeg => "data:image/jpeg;base64,".to_owned(),
        };
        proof {
            assert(uri@ == uri_prefix(*format));
        }
        uri.append(b64.as_str());
        Ok(uri)
    } else {
        Err(CaptchaError::EncodingFailure)
    }
}

/// Render one rotated canvas into its challenge data URI: edge cleanup,
/// resize to the requested dimensions, serialization into the requested
/// format, base64 with the scheme marker. Touches no shared state, so
/// callers may run it fully in parallel, outside any lock. Succeeds
/// exactly when the resized pixels serialize and the base64 text fits in
/// memory; every failure is an `EncodingFailure`.
pub fn render_challenge(
    rotated: &Image,
    out_width: u32,
    out_height: u32,
    format: &ImageEncoding,
) -> (r: Result<String, CaptchaError>)
    requires
        rotated.wf(),
        1 <= rotated.width,
        1 <= rotated.height,
        1 <= out_width,
        1 <= out_height,
        out_width as int * out_height as int * 4 <= usize::MAX,
    ensures
        r is Ok <==> render_succeeds(
            rotated.pixels@,
            rotated.width as nat,
            rotated.height as nat,
            out_width as nat,
            out_height as nat,
            *format,
        ),
        r matches Ok(s) ==> s@ == rendered_data_uri(
            rotated.pixels@,
            rotated.width as nat,
            rotated.height as nat,
            out_width as nat,
            out_height as nat,
            *format,
        ),
        r matches Err(e) ==> e == CaptchaError::EncodingFailure,
{
    let cleaned = alpha_cleanup(rotated);
    let resized = resize_image(&cleaned, out_width, out_height);
    let bytes = match encode_image(&resized, format) {
        Some(b) => b,
        None => {
            return Err(CaptchaError::EncodingFailure);
        },
    };
    encode_data_uri(&bytes, format)
}

/// All state one rotation-CAPTCHA service instance needs: the immutable
/// configuration, the output container format, and the challenge store.
/// Its view is the store's mapping from identifier to accepted interval.
pub struct RotateAppState {
    pub option: CaptchaOption,
    pub image_format: ImageEncoding,
    pub store: ChallengeStore,
}

impl View for RotateAppState {
    type V = Map<Seq<char>, (i64, i64)>;

    open spec fn view(&self) -> Map<Seq<char>, (i64, i64)> {
        self.store@
    }
}

impl RotateAppState {
    pub open spec fn wf(&self) -> bool {
        self.option.wf()
    }

    pub fn new(option: CaptchaOption, image_format: ImageEncoding) -> (r: Self)
        requires
            option.wf(),
        ensures
            r.option == option,
            r.image_format == image_format,
            r@ == Map::<Seq<char>, (i64, i64)>::empty(),
            r.wf(),
    {
        RotateAppState { option, image_format, store: ChallengeStore::new() }
    }

    /// Uniformly select one source image from the configured pool; the
    /// caller decodes the image at the returned index. Fails exactly when
    /// the pool is empty.
    pub fn pick_source(&self) -> (r: Result<usize, CaptchaError>)
        ensures
            r matches Ok(i) ==> i < self.option.images@.len(),
            r is Err <==> self.option.images@.len() == 0,
            r matches Err(e) ==> e == CaptchaError::SourceUnavailable,
    {
        let n = self.option.images.len();
        if n == 0 {
            Err(CaptchaError::SourceUnavailable)
        } else {
            Ok(pick_index(n))
        }
    }

    /// First half of a generation call: cut the inscribed disc out of the
    /// decoded source and draw the target angle (millidegrees, uniform
    /// over the full 360-degree span). The caller rotates the returned
    /// canvas about its center by the returned angle and hands the result
    /// to `generate_captcha`. Fails exactly when the configured modality
    /// has no implementation.
    pub fn prepare_captcha(&self, source: &Image) -> (r: Result<(Image, i64), CaptchaError>)
        requires
            source.wf(),
            1 <= source.width,
            1 <= source.height,
        ensures
            r is Ok <==> self.option.captcha_type is Rotate,
            r matches Ok(p) ==> ({
                &&& p.0.wf()
                &&& p.0.width == diameter_of(source.width as int, source.height as int)
                &&& p.0.height == p.0.width
                &&& p.0.pixels@ == extract_pixels(
                    source.pixels@,
                    source.width as int,
                    source.height as int,
                )
                &&& -180_000 <= p.1 < 180_000
            }),
            r matches Err(e) ==> e == CaptchaError::NotImplemented,
    {
        match self.option.captcha_type {
            CaptchaType::Rotate => {
                let circle = circular_extract(source);
                let target = draw_angle_millideg();
                Ok((circle, target))
            },
            CaptchaType::Slide => Err(CaptchaError::NotImplemented),
        }
    }

    /// Issue a fresh 32-character alphanumeric identifier and register
    /// the accepted interval `[target - leeway, target + leeway]` under
    /// it. This is the only step of a generation call that touches the
    /// store, so a caller serializing access needs its lock for this call
    /// alone, not across rendering.
    pub fn register_challenge(&mut self, target_millideg: i64) -> (r: String)
        requires
            old(self).wf(),
            -180_000 <= target_millideg <= 180_000,
        ensures
            final(self).wf(),
            final(self).option == old(self).option,
            final(self).image_format == old(self).image_format,
            r@.len() == 32,
            forall|i: int| 0 <= i < 32 ==> is_alnum_char(#[trigger] r@[i]),
            final(self)@ == old(self)@.insert(
                r@,
                (
                    (target_millideg - old(self).option.leeway_millideg) as i64,
                    (target_millideg + old(self).option.leeway_millideg) as i64,
                ),
            ),
    {
        let hash_key = fresh_hash_key();
        let key_copy = hash_key.clone();
        let min_millideg = target_millideg - self.option.leeway_millideg;
        let max_millideg = target_millideg + self.option.leeway_millideg;
        self.store.insert(hash_key, min_millideg, max_millideg);
        key_copy
    }

    /// Second half of a generation call, taking the rotated canvas and
    /// the drawn target angle: render the canvas into a data URI
    /// (cleanup, resize, serialization, base64), then register a fresh
    /// identifier for the accepted interval. Succeeds exactly when the
    /// modality is implemented and rendering succeeds (see
    /// `render_succeeds`). On any failure the store is left untouched.
    pub fn generate_captcha(&mut self, rotated: &Image, target_millideg: i64) -> (r: Result<
        CaptchaChallenge,
        CaptchaError,
    >)
        requires
            old(self).wf(),
            rotated.wf(),
            1 <= rotated.width,
            1 <= rotated.height,
            -180_000 <= target_millideg <= 180_000,
        ensures
            final(self).wf(),
            final(self).option == old(self).option,
            final(self).image_format == old(self).image_format,
            r is Ok <==> (old(self).option.captcha_type is Rotate && render_succeeds(
                rotated.pixels@,
                rotated.width as nat,
                rotated.height as nat,
                old(self).option.width as nat,
                old(self).option.height as nat,
                old(self).image_format,
            )),
            r is Err ==> *final(self) == *old(self),
            r matches Err(e) ==> (e == CaptchaError::NotImplemented || e
                == CaptchaError::EncodingFailure),
            r matches Err(e) ==> (e == CaptchaError::NotImplemented <==> old(
                self,
            ).option.captcha_type is Slide),
            r matches Ok(ch) ==> ({
                &&& old(self).option.captcha_type is Rotate
                &&& ch.hash_key@.len() == 32
                &&& (forall|i: int| 0 <= i < 32 ==> is_alnum_char(#[trigger] ch.hash_key@[i]))
                &&& ch.base64_image@ == rendered_data_uri(
                    rotated.pixels@,
                    rotated.width as nat,
                    rotated.height as nat,
                    old(self).option.width as nat,
                    old(self).option.height as nat,
                    old(self).image_format,
                )
                &&& final(self)@ == old(self)@.insert(
                    ch.hash_key@,
                    (
                        (target_millideg - old(self).option.leeway_millideg) as i64,
                        (target_millideg + old(self).option.leeway_millideg) as i64,
                    ),
                )
            }),
    {
        match self.option.captcha_type {
            CaptchaType::Slide => Err(CaptchaError::NotImplemented),
            CaptchaType::Rotate => {
                let out_w = self.option.width as u32;
                let out_h = self.option.height as u32;
                let uri = match render_challenge(rotated, out_w, out_h, &self.image_format) {
                    Ok(u) => u,
                    Err(_) => {
                        return Err(CaptchaError::EncodingFailure);
                    },
                };
                let hash_key = self.register_challenge(target_millideg);
                Ok(CaptchaChallenge { base64_image: uri, hash_key })
            },
        }
    }

    /// The verification decision for one claimed answer, in
    /// millidegrees: true iff the identifier is known and the claim lies
    /// inside its accepted interval, boundaries included. An unknown
    /// identifier and an out-of-interval claim are indistinguishable.
    pub fn check_captcha(&self, hash_key: String, rotate_millideg: i64) -> (r: bool)
        ensures
            r == accepts(self@, hash_key@, rotate_millideg as int),
    {
        self.store.check(&hash_key, rotate_millideg)
    }

    /// A point-in-time copy of every outstanding (identifier, interval)
    /// entry; mutating the copy cannot touch the store.
    pub fn inspect(&self) -> (r: Vec<(String, (i64, i64))>)
        ensures
            entries_map(r@) == self@,
    {
        self.store.inspect()
    }
}

/// Interval correctness for a generated challenge: once a generation call
/// has registered identifier `id` for target angle `target` with leeway
/// `leeway` (the interval its contract states), the claimed angles
/// accepted under `id` are the exact target, everything up to the leeway
/// away from it with both boundaries included, and nothing farther away
/// by any positive margin.
pub proof fn lemma_generated_challenge_verifies(
    m: Map<Seq<char>, (i64, i64)>,
    id: Seq<char>,
    target: int,
    leeway: int,
    eps: int,
)
    requires
        m.contains_key(id),
        m[id] == (((target - leeway) as i64, (target + leeway) as i64)),
        -180_000 <= target <= 180_000,
        0 <= leeway <= LEEWAY_LIMIT as int,
        0 < eps,
    ensures
        accepts(m, id, target),
        accepts(m, id, target - leeway),
        accepts(m, id, target + leeway),
        !accepts(m, id, target + leeway + eps),
        !accepts(m, id, target - leeway - eps),
{
    lemma_interval_correctness(m, id, target, leeway, eps);
}

/// Determinism of the non-random pipeline steps: identical source pixels
/// and dimensions give identical circular extractions, identical cleanup
/// results and identical resize results — no step outside the angle draw
/// and the identifier draw hides any nondeterminism.
pub proof fn lemma_nonrandom_steps_deterministic(
    a: Seq<Px>,
    b: Seq<Px>,
    w: int,
    h: int,
    sw: nat,
    sh: nat,
    nw: nat,
    nh: nat,
)
    requires
        a == b,
    ensures
        extract_pixels(a, w, h) == extract_pixels(b, w, h),
        cleanup_pixels(a) == cleanup_pixels(b),
        resize_of(a, sw, sh, nw, nh) == resize_of(b, sw, sh, nw, nh),
{
}

} // verus!
