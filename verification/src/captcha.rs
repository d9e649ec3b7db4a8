//! Configuration and error types shared by the whole challenge pipeline.

use vstd::prelude::*;

verus! {

/// The CAPTCHA mechanism in use. Only `Rotate` has an implemented
/// generation algorithm; `Slide` is declared so that a second modality can
/// be added without touching the rotation path, and requesting it fails
/// with `CaptchaError::NotImplemented`.
#[derive(Clone, Copy, Debug, PartialEq, Eq, Structural)]
pub enum CaptchaType {
    Rotate,
    Slide,
}

/// How a `generate` call can fail. Verification never fails: an unknown
/// identifier and a wrong answer are both reported as a plain `false`.
#[derive(Clone, Copy, Debug, PartialEq, Eq, Structural)]
pub enum CaptchaError {
    /// The image pool is empty (or, at the caller's edge, the selected
    /// image could not be decoded).
    SourceUnavailable,
    /// Serializing the rendered image failed; an internal error.
    EncodingFailure,
    /// The requested modality has no implementation.
    NotImplemented,
}

/// Largest admissible leeway, in millidegrees: keeps `target + leeway`
/// inside `i64` for every target angle in `[-180_000, 180_000]`.
pub const LEEWAY_LIMIT: i64 = i64::MAX - 180_000;

/// Immutable configuration shared by all generation calls.
pub struct CaptchaOption {
    /// Locations of the candidate source images; opaque to this library,
    /// the caller decodes whichever one is selected.
    pub images: Vec<String>,
    /// Target render width in pixels.
    pub width: i32,
    /// Target render height in pixels.
    pub height: i32,
    /// Symmetric answer tolerance around the target angle, in millidegrees.
    pub leeway_millideg: i64,
    /// Which challenge mechanism to generate.
    pub captcha_type: CaptchaType,
}

impl CaptchaOption {
    /// Render dimensions are positive, the rendered canvas (four bytes
    /// per pixel) fits in memory, and the leeway is a non-negative
    /// tolerance small enough for exact interval arithmetic.
    pub open spec fn wf(&self) -> bool {
        &&& 1 <= self.width
        &&& 1 <= self.height
        &&& self.width as int * self.height as int * 4 <= usize::MAX
        &&& 0 <= self.leeway_millideg <= LEEWAY_LIMIT
    }

    pub fn new(
        images: Vec<String>,
        width: i32,
        height: i32,
        leeway_millideg: i64,
        captcha_type: CaptchaType,
    ) -> (r: Self)
        requires
            1 <= width,
            1 <= height,
            width as int * height as int * 4 <= usize::MAX,
            0 <= leeway_millideg <= LEEWAY_LIMIT,
        ensures
            r.images == images,
            r.width == width,
            r.height == height,
            r.leeway_millideg == leeway_millideg,
            r.captcha_type == captcha_type,
            r.wf(),
    {
        CaptchaOption { images, width, height, leeway_millideg, captcha_type }
    }
}

} // verus!
