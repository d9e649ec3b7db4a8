use easy_captcha::{alpha_cleanup, circular_extract, Image, Px};

fn opaque(red: u8, green: u8, blue: u8) -> Px {
    Px { red, green, blue, alpha: 255 }
}

/// A w×h image whose pixel at (x, y) encodes its own coordinates, so any
/// misplaced copy is visible.
fn coordinate_image(w: u32, h: u32) -> Image {
    let mut pixels = Vec::new();
    for y in 0..h {
        for x in 0..w {
            pixels.push(opaque((x % 256) as u8, (y % 256) as u8, ((x + y) % 256) as u8));
        }
    }
    Image::new(w, h, pixels)
}

#[test]
fn extraction_square_is_min_dimension() {
    let img = coordinate_image(6, 4);
    let out = circular_extract(&img);
    assert_eq!(out.width, 4);
    assert_eq!(out.height, 4);
    assert_eq!(out.pixels.len(), 16);

    let tall = coordinate_image(3, 9);
    let out_tall = circular_extract(&tall);
    assert_eq!(out_tall.width, 3);
    assert_eq!(out_tall.height, 3);
}

#[test]
fn extraction_masks_outside_inscribed_circle() {
    let img = coordinate_image(5, 5);
    let out = circular_extract(&img);
    let d: i64 = 5;
    let r: i64 = d / 2;
    for y in 0..d {
        for x in 0..d {
            let px = out.pixels[(y * d + x) as usize];
            let inside = (x - r) * (x - r) + (y - r) * (y - r) <= r * r;
            if inside {
                // source is 5x5, crop is centered, so the copy is 1:1
                assert_eq!(px, opaque(x as u8, y as u8, (x + y) as u8));
            } else {
                assert_eq!(px.alpha, 0);
                assert_eq!(px, Px { red: 0, green: 0, blue: 0, alpha: 0 });
            }
        }
    }
    // corners of any square canvas are never inside the disc
    assert_eq!(out.pixels[0].alpha, 0);
    assert_eq!(out.pixels[(d * d - 1) as usize].alpha, 0);
}

#[test]
fn extraction_is_centered_on_source() {
    // 6x4: diameter 4, crop starts at source column 3 - 2 = 1, row 2 - 2 = 0
    let img = coordinate_image(6, 4);
    let out = circular_extract(&img);
    let d: i64 = 4;
    let r: i64 = 2;
    for y in 0..d {
        for x in 0..d {
            let inside = (x - r) * (x - r) + (y - r) * (y - r) <= r * r;
            if inside {
                let sx = (1 + x) as u8;
                let sy = y as u8;
                assert_eq!(out.pixels[(y * d + x) as usize], opaque(sx, sy, sx + sy));
            }
        }
    }
}

#[test]
fn extraction_is_deterministic() {
    let a = coordinate_image(7, 11);
    let b = coordinate_image(7, 11);
    let out_a = circular_extract(&a);
    let out_b = circular_extract(&b);
    assert_eq!(out_a.width, out_b.width);
    assert_eq!(out_a.height, out_b.height);
    assert_eq!(out_a.pixels, out_b.pixels);
}

#[test]
fn cleanup_keeps_nonzero_alpha_and_clears_the_rest() {
    let pixels = vec![
        Px { red: 9, green: 8, blue: 7, alpha: 0 },
        Px { red: 1, green: 2, blue: 3, alpha: 128 },
        Px { red: 4, green: 5, blue: 6, alpha: 255 },
        Px { red: 200, green: 100, blue: 50, alpha: 1 },
    ];
    let img = Image::new(4, 1, pixels);
    let out = alpha_cleanup(&img);
    assert_eq!(out.width, 4);
    assert_eq!(out.height, 1);
    assert_eq!(out.pixels[0], Px { red: 0, green: 0, blue: 0, alpha: 0 });
    assert_eq!(out.pixels[1], Px { red: 1, green: 2, blue: 3, alpha: 128 });
    assert_eq!(out.pixels[2], Px { red: 4, green: 5, blue: 6, alpha: 255 });
    assert_eq!(out.pixels[3], Px { red: 200, green: 100, blue: 50, alpha: 1 });
}

#[test]
fn one_pixel_image_is_its_own_disc() {
    let img = Image::new(1, 1, vec![opaque(42, 43, 44)]);
    let out = circular_extract(&img);
    assert_eq!(out.width, 1);
    assert_eq!(out.height, 1);
    // radius 0, the single cell is at distance 0, so it is kept
    assert_eq!(out.pixels[0], opaque(42, 43, 44));
}
