//! A rotation CAPTCHA library: a circular crop of a source image is rotated
//! by a random angle, and the caller must later report a counter-rotation
//! close enough to the drawn angle.
//!
//! Angles are measured in signed millidegrees (one thousandth of a degree),
//! so that the accepted interval arithmetic is exact integer arithmetic.

mod captcha;
mod raster;
mod rotate;
mod store;

pub use rotate::base64_of;
pub use rotate::encode_data_uri;
pub use rotate::encoding_of;
pub use rotate::is_alnum_char;
pub use rotate::lemma_generated_challenge_verifies;
pub use rotate::lemma_nonrandom_steps_deterministic;
pub use rotate::encodes_ok;
pub use rotate::render_challenge;
pub use rotate::render_succeeds;
pub use rotate::rendered_data_uri;
pub use rotate::resize_of;
pub use rotate::uri_prefix;
pub use rotate::CaptchaChallenge;
pub use rotate::ImageEncoding;
pub use rotate::RotateAppState;

pub use raster::alpha_cleanup;
pub use raster::circular_extract;
pub use raster::cleanup_pixel;
pub use raster::cleanup_pixels;
pub use raster::clear_px;
pub use raster::diameter_of;
pub use raster::extract_pixel;
pub use raster::extract_pixels;
pub use raster::in_disc;
pub use raster::lemma_circular_masking;
pub use raster::Image;
pub use raster::Px;

pub use store::accepts;
pub use store::entries_map;
pub use store::lemma_interval_correctness;
pub use store::lemma_unknown_identifier;
pub use store::ChallengeStore;

pub use captcha::CaptchaError;
pub use captcha::CaptchaOption;
pub use captcha::CaptchaType;
pub use captcha::LEEWAY_LIMIT;
