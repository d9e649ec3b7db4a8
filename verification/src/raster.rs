//! In-memory RGBA pixel grids and the verified geometric steps of the
//! challenge pipeline: circular extraction and edge cleanup.

use vstd::arithmetic::div_mod::lemma_fundamental_div_mod;
use vstd::arithmetic::div_mod::lemma_fundamental_div_mod_converse;
use vstd::prelude::*;

verus! {

/// One RGBA pixel, eight bits per channel.
#[derive(Clone, Copy, Debug, PartialEq, Eq, Structural)]
pub struct Px {
    pub red: u8,
    pub green: u8,
    pub blue: u8,
    pub alpha: u8,
}

/// The fully transparent pixel.
pub open spec fn clear_px() -> Px {
    Px { red: 0, green: 0, blue: 0, alpha: 0 }
}

/// A width × height grid of pixels, row-major: the pixel at column `x` of
/// row `y` sits at index `y * width + x`.
#[derive(Debug)]
pub struct Image {
    pub width: u32,
    pub height: u32,
    pub pixels: Vec<Px>,
}

impl Image {
    /// The pixel buffer holds exactly one pixel per grid cell.
    pub open spec fn wf(&self) -> bool {
        self.pixels@.len() == self.width as int * self.height as int
    }

    pub fn new(width: u32, height: u32, pixels: Vec<Px>) -> (r: Image)
        requires
            pixels@.len() == width as int * height as int,
        ensures
            r.width == width,
            r.height == height,
            r.pixels == pixels,
            r.wf(),
    {
        Image { width, height, pixels }
    }
}

/// Side of the square canvas that the circular crop of a w × h image
/// uses: the smaller of the two dimensions.
pub open spec fn diameter_of(w: int, h: int) -> int {
    if w <= h {
        w
    } else {
        h
    }
}

/// Whether cell (x, y) of a square canvas of side `d` lies inside the
/// inscribed disc: distance from the center cell (d/2, d/2) at most the
/// radius d/2, boundary included.
pub open spec fn in_disc(d: int, x: int, y: int) -> bool {
    let r = d / 2;
    (x - r) * (x - r) + (y - r) * (y - r) <= r * r
}

/// Pixel (x, y) of the circular extraction of a w × h source: the source
/// pixel under the disc centered on the source's geometric center, fully
/// transparent outside the disc.
pub open spec fn extract_pixel(src: Seq<Px>, w: int, h: int, x: int, y: int) -> Px {
    let d = diameter_of(w, h);
    let r = d / 2;
    if in_disc(d, x, y) {
        src[(h / 2 - r + y) * w + (w / 2 - r + x)]
    } else {
        clear_px()
    }
}

/// The full circular extraction of a w × h source: a d × d canvas,
/// d the smaller dimension, holding the inscribed disc of the source.
pub open spec fn extract_pixels(src: Seq<Px>, w: int, h: int) -> Seq<Px> {
    let d = diameter_of(w, h);
    Seq::new((d * d) as nat, |i: int| extract_pixel(src, w, h, i % d, i / d))
}

/// One pixel of the edge cleanup: kept if its alpha channel is non-zero,
/// fully transparent otherwise.
pub open spec fn cleanup_pixel(p: Px) -> Px {
    if p.alpha != 0 {
        p
    } else {
        clear_px()
    }
}

/// The edge cleanup of a whole buffer, pixel for pixel.
pub open spec fn cleanup_pixels(src: Seq<Px>) -> Seq<Px> {
    Seq::new(src.len(), |i: int| cleanup_pixel(src[i]))
}

/// Cut the inscribed disc out of the source image: a square canvas of
/// side `min(width, height)`, fully transparent except that every cell
/// inside the inscribed disc (inclusive boundary test) carries the source
/// pixel under it, so that the crop shows no corner cues under rotation.
#[verifier::loop_isolation(false)]
pub fn circular_extract(img: &Image) -> (out: Image)
    requires
        img.wf(),
        1 <= img.width,
        1 <= img.height,
    ensures
        out.wf(),
        out.width == diameter_of(img.width as int, img.height as int),
        out.height == out.width,
        out.pixels@ == extract_pixels(img.pixels@, img.width as int, img.height as int),
{
    let w = img.width;
    let h = img.height;
    let d = if w <= h {
        w
    } else {
        h
    };
    let radius = d / 2;
    let cx = w / 2;
    let cy = h / 2;
    proof {
        lemma_fundamental_div_mod(d as int, 2);
        lemma_fundamental_div_mod(w as int, 2);
        lemma_fundamental_div_mod(h as int, 2);
        assert(radius as int <= cx as int && cx as int - radius as int + d as int <= w as int);
        assert(radius as int <= cy as int && cy as int - radius as int + d as int <= h as int);
    }
    let mut pixels: Vec<Px> = Vec::new();
    let mut y: u32 = 0;
    while y < d
        invariant
            y <= d,
            pixels@.len() == y as int * d as int,
            forall|i: int|
                0 <= i < pixels@.len() ==> pixels@[i] == extract_pixel(
                    img.pixels@,
                    w as int,
                    h as int,
                    i % (d as int),
                    i / (d as int),
                ),
        decreases d - y,
    {
        let mut x: u32 = 0;
        while x < d
            invariant
                x <= d,
                y < d,
                pixels@.len() == y as int * d as int + x as int,
                forall|i: int|
                    0 <= i < pixels@.len() ==> pixels@[i] == extract_pixel(
                        img.pixels@,
                        w as int,
                        h as int,
                        i % (d as int),
                        i / (d as int),
                    ),
            decreases d - x,
        {
            let ghost oldlen = pixels@.len() as int;
            let dx = x as i128 - radius as i128;
            let dy = y as i128 - radius as i128;
            proof {
                assert(0 <= dx * dx <= 0x1_0000_0000_0000_0000i128 && 0 <= dy * dy
                    <= 0x1_0000_0000_0000_0000i128 && 0 <= (radius as i128) * (radius as i128)
                    <= 0x1_0000_0000_0000_0000i128) by (nonlinear_arith)
                    requires
                        -0x1_0000_0000i128 <= dx <= 0x1_0000_0000i128,
                        -0x1_0000_0000i128 <= dy <= 0x1_0000_0000i128,
                        0 <= (radius as i128) <= 0x1_0000_0000i128,
                ;
            }
            let px: Px;
            if dx * dx + dy * dy <= radius as i128 * radius as i128 {
                let sx = cx - radius + x;
                let sy = cy - radius + y;
                let n_px = img.pixels.len();
                proof {
                    assert(0 <= (sy as int) * (w as int) && (sy as int) * (w as int) + (sx as int)
                        < (w as int) * (h as int)) by (nonlinear_arith)
                        requires
                            0 <= (sy as int) < (h as int),
                            0 <= (sx as int) < (w as int),
                    ;
                    assert((sy as int) * (w as int) + (sx as int) < n_px as int);
                }
                let idx = sy as usize * (w as usize) + sx as usize;
                px = img.pixels[idx];
            } else {
                px = Px { red: 0, green: 0, blue: 0, alpha: 0 };
            }
            pixels.push(px);
            proof {
                lemma_fundamental_div_mod_converse(oldlen, d as int, y as int, x as int);
                assert(px == extract_pixel(img.pixels@, w as int, h as int, x as int, y as int));
            }
            x = x + 1;
        }
        proof {
            assert((y as int + 1) * (d as int) == (y as int) * (d as int) + (d as int))
                by (nonlinear_arith);
        }
        y = y + 1;
    }
    proof {
        assert(pixels@ =~= extract_pixels(img.pixels@, img.width as int, img.height as int));
        assert(d as int * d as int == pixels@.len());
    }
    Image { width: d, height: d, pixels }
}

/// Rebuild a buffer of the same size keeping only pixels whose alpha
/// channel is non-zero; every other cell becomes fully transparent. This
/// discards the partially blended fringe that resampling leaves at the
/// disc boundary.
#[verifier::loop_isolation(false)]
pub fn alpha_cleanup(img: &Image) -> (out: Image)
    requires
        img.wf(),
    ensures
        out.wf(),
        out.width == img.width,
        out.height == img.height,
        out.pixels@ == cleanup_pixels(img.pixels@),
{
    let n = img.pixels.len();
    let mut pixels: Vec<Px> = Vec::new();
    let mut i: usize = 0;
    while i < n
        invariant
            i <= n,
            pixels@.len() == i as int,
            forall|j: int| 0 <= j < i ==> pixels@[j] == cleanup_pixel(img.pixels@[j]),
        decreases n - i,
    {
        let p = img.pixels[i];
        if p.alpha != 0 {
            pixels.push(p);
        } else {
            pixels.push(Px { red: 0, green: 0, blue: 0, alpha: 0 });
        }
        i = i + 1;
    }
    proof {
        assert(pixels@ =~= cleanup_pixels(img.pixels@));
    }
    Image { width: img.width, height: img.height, pixels }
}

/// Circular masking: in the circular extraction of any source, every
/// canvas cell outside the inscribed disc is fully transparent.
pub proof fn lemma_circular_masking(src: Seq<Px>, w: int, h: int, x: int, y: int)
    requires
        0 <= x < diameter_of(w, h),
        0 <= y < diameter_of(w, h),
        !in_disc(diameter_of(w, h), x, y),
    ensures
        extract_pixels(src, w, h)[y * diameter_of(w, h) + x].alpha == 0,
{
    let d = diameter_of(w, h);
    assert(0 <= y * d + x < d * d) by (nonlinear_arith)
        requires
            0 <= x < d,
            0 <= y < d,
    ;
    lemma_fundamental_div_mod_converse(y * d + x, d, y, x);
}

} // verus!
