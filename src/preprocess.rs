use vstd::prelude::*;
use vstd::arithmetic::div_mod::lemma_fundamental_div_mod_converse;
use crate::shape::INPUT_SIDE;

verus! {

/// An image held as 8-bit RGBA pixels, row-major, four samples per pixel.
pub struct RgbaImage {
    pub width: u32,
    pub height: u32,
    pub pixels: Vec<u8>,
}

impl RgbaImage {
    pub open spec fn wf(&self) -> bool {
        self.pixels@.len() == self.width as int * self.height as int * 4
    }

    /// Wraps raw RGBA samples: `None` unless they fill `width` × `height` pixels exactly.
    pub fn new(width: u32, height: u32, pixels: Vec<u8>) -> (r: Option<RgbaImage>)
        ensures
            r is Some <==> pixels@.len() == width as int * height as int * 4,
            r matches Some(img) ==> img.wf() && img.width == width && img.height == height
                && img.pixels@ == pixels@,
    {
        let len = pixels.len();
        match (width as usize).checked_mul(height as usize) {
            Some(n) => match n.checked_mul(4) {
                Some(m) => {
                    if m == len {
                        Some(RgbaImage { width, height, pixels })
                    } else {
                        None
                    }
                },
                None => None,
            },
            None => {
                proof {
                    let w = width as int;
                    let h = height as int;
                    assert(w * h <= w * h * 4) by (nonlinear_arith)
                        requires
                            w >= 0,
                            h >= 0,
                    ;
                }
                None
            },
        }
    }
}

/// What `image::imageops::resize` with the Catmull-Rom filter makes of an RGBA image.
pub uninterp spec fn catmull_rom_resized(
    pixels: Seq<u8>,
    width: u32,
    height: u32,
    new_width: u32,
    new_height: u32,
) -> Seq<u8>;

/// Relies on `image::imageops::resize` with `FilterType::CatmullRom`: it returns an
/// image of exactly `new_width` × `new_height` pixels, and copies an image that
/// already has that size. It first resamples the columns into a buffer of
/// `width` × `new_height` RGBA `f32` values, so that buffer must be allocatable.
#[verifier::external_body]
fn resize_catmull_rom(img: &RgbaImage, new_width: u32, new_height: u32) -> (r: Vec<u8>)
    requires
        img.wf(),
        new_width > 0,
        new_height > 0,
        new_width as int * new_height as int * 4 <= isize::MAX,
        img.width as int * new_height as int * 16 <= isize::MAX,
    ensures
        r@ == catmull_rom_resized(img.pixels@, img.width, img.height, new_width, new_height),
        r@.len() == new_width as int * new_height as int * 4,
        img.width == new_width && img.height == new_height ==> r@ == img.pixels@,
{
    let buf = image::RgbaImage::from_raw(img.width, img.height, img.pixels.clone()).unwrap();
    image::imageops::resize(&buf, new_width, new_height, image::imageops::FilterType::CatmullRom)
        .into_raw()
}

/// Sample `c` (0 red, 1 green, 2 blue, 3 alpha) of pixel `p`.
pub open spec fn sample_at(pixels: Seq<u8>, p: int, c: int) -> u8 {
    pixels[4 * p + c]
}

/// The red, green and blue planes of `n` RGBA pixels, one after the other;
/// alpha is dropped.
pub open spec fn planar_of(pixels: Seq<u8>, n: int) -> Seq<u8> {
    Seq::new((3 * n) as nat, |i: int| sample_at(pixels, i % n, i / n))
}

/// Every red, green and blue sample of the first `n` pixels equals `v`.
pub open spec fn rgb_uniform(pixels: Seq<u8>, n: int, v: u8) -> bool {
    forall|p: int, c: int| 0 <= p < n && 0 <= c < 3 ==> #[trigger] sample_at(pixels, p, c) == v
}

/// Splits `n` RGBA pixels into channel-major red, green and blue planes.
pub fn planar_samples(pixels: &Vec<u8>, n: usize) -> (r: Vec<u8>)
    requires
        pixels@.len() == 4 * n,
    ensures
        r@ == planar_of(pixels@, n as int),
{
    let total: usize = pixels.len();
    let mut out: Vec<u8> = Vec::new();
    let mut c: usize = 0;
    while c < 3
        invariant
            c <= 3,
            pixels@.len() == 4 * n,
            total == 4 * n,
            out@.len() == c * n,
            forall|k: int|
                0 <= k < out@.len() ==> out@[k] == sample_at(pixels@, k % (n as int), k / (n as int)),
        decreases 3 - c,
    {
        let mut p: usize = 0;
        while p < n
            invariant
                p <= n,
                c < 3,
                pixels@.len() == 4 * n,
                total == 4 * n,
                out@.len() == c * n + p,
                forall|k: int|
                    0 <= k < out@.len() ==> out@[k] == sample_at(pixels@, k % (n as int), k / (n as int)),
            decreases n - p,
        {
            proof {
                let k = c * n + p;
                lemma_fundamental_div_mod_converse(k, n as int, c as int, p as int);
            }
            out.push(pixels[4 * p + c]);
            p = p + 1;
        }
        proof {
            let ci = c as int;
            let ni = n as int;
            assert(ci * ni + ni == (ci + 1) * ni) by (nonlinear_arith);
        }
        c = c + 1;
    }
    assert(out@ =~= planar_of(pixels@, n as int));
    out
}

/// The resampling buffer of `width` × 640 RGBA `f32` values fits in memory.
pub open spec fn resizable_to_input(img: &RgbaImage) -> bool {
    img.width as int * 640 * 16 <= isize::MAX
}

/// The detector's input samples for an image: the image resized to 640 × 640
/// with the Catmull-Rom filter, then split into red, green and blue planes.
pub fn yolo_samples(img: &RgbaImage) -> (r: Vec<u8>)
    requires
        img.wf(),
        resizable_to_input(img),
    ensures
        r@ == planar_of(
            catmull_rom_resized(img.pixels@, img.width, img.height, 640, 640),
            409600int,
        ),
        r@.len() == 3 * 409600int,
        img.width == 640 && img.height == 640 ==> r@ == planar_of(img.pixels@, 409600int),
{
    let side = INPUT_SIDE as u32;
    assert(640 * 640 * 4 <= isize::MAX) by {
        assert(isize::MAX >= 0x7fff_ffff);
    }
    let resized = resize_catmull_rom(img, side, side);
    planar_samples(&resized, INPUT_SIDE * INPUT_SIDE)
}

/// An image whose red, green and blue samples all equal `v` gives planes in
/// which every sample is `v`.
pub proof fn lemma_uniform_planes(pixels: Seq<u8>, n: int, v: u8)
    requires
        n > 0,
        pixels.len() == 4 * n,
        rgb_uniform(pixels, n, v),
    ensures
        forall|k: int| 0 <= k < 3 * n ==> #[trigger] planar_of(pixels, n)[k] == v,
{
    assert forall|k: int| 0 <= k < 3 * n implies #[trigger] planar_of(pixels, n)[k] == v by {
        let q = k / n;
        let r = k % n;
        vstd::arithmetic::div_mod::lemma_fundamental_div_mod(k, n);
        vstd::arithmetic::div_mod::lemma_mod_bound(k, n);
        assert(0 <= q < 3) by (nonlinear_arith)
            requires
                k == n * q + r,
                0 <= r < n,
                0 <= k < 3 * n,
        ;
        assert(sample_at(pixels, r, q) == v);
    }
}

/// A 640 × 640 image whose colour samples all equal `v` reaches the detector
/// as samples that all equal `v`: all black gives all zeros, all white gives
/// all full-scale samples.
pub proof fn lemma_uniform_image_samples(img: RgbaImage, v: u8, r: Seq<u8>)
    requires
        img.wf(),
        img.width == 640,
        img.height == 640,
        rgb_uniform(img.pixels@, 409600int, v),
        r == planar_of(img.pixels@, 409600int),
    ensures
        r.len() == 3 * 409600int,
        forall|k: int| 0 <= k < r.len() ==> #[trigger] r[k] == v,
{
    lemma_uniform_planes(img.pixels@, 409600int, v);
}

} // verus!
