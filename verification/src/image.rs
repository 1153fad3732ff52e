//! A plain RGBA image with 32-bit float channels, each channel held as its IEEE-754
//! bit pattern (the library moves texels; it does not compute with them).

use vstd::prelude::*;

verus! {

/// One texel: red, green, blue and alpha as `f32` bit patterns.
pub type Rgba32 = [u32; 4];

/// The all-zero texel (transparent black).
pub open spec fn zero_texel() -> Rgba32 {
    [0u32, 0u32, 0u32, 0u32]
}

/// Row-major image of `width`×`height` texels.
pub struct RgbaF32Image {
    pub width: u32,
    pub height: u32,
    pub pixels: Vec<Rgba32>,
}

/// Index of texel (x, y) in a row-major image of the given width.
pub open spec fn pixel_index(width: int, x: int, y: int) -> int {
    y * width + x
}

/// Texel indices are distinct and in range.
pub proof fn lemma_pixel_index(width: int, height: int, x: int, y: int)
    requires
        0 <= x < width,
        0 <= y < height,
    ensures
        0 <= pixel_index(width, x, y) < width * height,
        pixel_index(width, x, y) / width == y,
        pixel_index(width, x, y) % width == x,
{
    vstd::arithmetic::mul::lemma_mul_inequality(y + 1, height, width);
    vstd::arithmetic::mul::lemma_mul_is_distributive_add(width, y, 1);
    vstd::arithmetic::mul::lemma_mul_is_commutative(width, y);
    vstd::arithmetic::mul::lemma_mul_is_commutative(width, y + 1);
    vstd::arithmetic::mul::lemma_mul_is_commutative(width, height);
    vstd::arithmetic::mul::lemma_mul_nonnegative(y, width);
    vstd::arithmetic::div_mod::lemma_fundamental_div_mod_converse(y * width + x, width, y, x);
}

impl RgbaF32Image {
    /// The texel buffer matches the dimensions.
    pub open spec fn wf(&self) -> bool {
        self.pixels@.len() == self.width * self.height
    }

    /// Texel (x, y).
    pub open spec fn pixel(&self, x: int, y: int) -> Rgba32 {
        self.pixels@[pixel_index(self.width as int, x, y)]
    }

    /// A `width`×`height` image of zero texels.
    pub fn new(width: u32, height: u32) -> (r: RgbaF32Image)
        requires
            width * height <= usize::MAX,
        ensures
            r.wf(),
            r.width == width,
            r.height == height,
            forall|i: int| 0 <= i < r.pixels@.len() ==> r.pixels@[i] == zero_texel(),
    {
        let n = (width as usize) * (height as usize);
        let mut pixels: Vec<Rgba32> = Vec::new();
        let mut i: usize = 0;
        while i < n
            invariant
                i <= n,
                pixels@.len() == i,
                forall|k: int| 0 <= k < i ==> pixels@[k] == zero_texel(),
            decreases n - i,
        {
            pixels.push([0u32, 0u32, 0u32, 0u32]);
            i = i + 1;
        }
        RgbaF32Image { width, height, pixels }
    }

    pub fn width(&self) -> (r: u32)
        ensures
            r == self.width,
    {
        self.width
    }

    pub fn height(&self) -> (r: u32)
        ensures
            r == self.height,
    {
        self.height
    }

    /// Texel (x, y).
    pub fn get_pixel(&self, x: u32, y: u32) -> (r: Rgba32)
        requires
            self.wf(),
            x < self.width,
            y < self.height,
        ensures
            r == self.pixel(x as int, y as int),
    {
        let n = self.pixels.len();
        proof {
            lemma_pixel_index(self.width as int, self.height as int, x as int, y as int);
            vstd::arithmetic::mul::lemma_mul_is_commutative(y as int, self.width as int);
        }
        self.pixels[(y as usize) * (self.width as usize) + (x as usize)]
    }

    /// Sets texel (x, y) to `p`.
    pub fn put_pixel(&mut self, x: u32, y: u32, p: Rgba32)
        requires
            old(self).wf(),
            x < old(self).width,
            y < old(self).height,
        ensures
            final(self).wf(),
            final(self).width == old(self).width,
            final(self).height == old(self).height,
            final(self).pixels@ == old(self).pixels@.update(
                pixel_index(old(self).width as int, x as int, y as int),
                p,
            ),
    {
        let n = self.pixels.len();
        proof {
            lemma_pixel_index(self.width as int, self.height as int, x as int, y as int);
        }
        let idx = (y as usize) * (self.width as usize) + (x as usize);
        self.pixels.set(idx, p);
    }
}

/// Copies `face` into `atlas` with its top-left corner at (`x_off`, `y_off`).
pub fn blit(atlas: &mut RgbaF32Image, face: &RgbaF32Image, x_off: u32, y_off: u32)
    requires
        old(atlas).wf(),
        face.wf(),
        x_off + face.width <= old(atlas).width,
        y_off + face.height <= old(atlas).height,
    ensures
        final(atlas).wf(),
        final(atlas).width == old(atlas).width,
        final(atlas).height == old(atlas).height,
        forall|xx: int, yy: int|
            0 <= xx < final(atlas).width && 0 <= yy < final(atlas).height
                ==> #[trigger] final(atlas).pixel(xx, yy) == if x_off <= xx < x_off + face.width
                && y_off <= yy < y_off + face.height {
                face.pixel(xx - x_off, yy - y_off)
            } else {
                old(atlas).pixel(xx, yy)
            },
{
    let w = atlas.width;
    let h = atlas.height;
    let fw = face.width;
    let fh = face.height;
    let ghost before = *atlas;
    let mut y: u32 = 0;
    while y < fh
        invariant
            y <= fh,
            fw == face.width,
            fh == face.height,
            face.wf(),
            atlas.wf(),
            atlas.width == w,
            atlas.height == h,
            before.wf(),
            before.width == w,
            before.height == h,
            x_off + fw <= w,
            y_off + fh <= h,
            forall|xx: int, yy: int|
                0 <= xx < w && 0 <= yy < h ==> #[trigger] atlas.pixel(xx, yy) == if x_off <= xx
                    < x_off + fw && y_off <= yy < y_off + y {
                    face.pixel(xx - x_off, yy - y_off)
                } else {
                    before.pixel(xx, yy)
                },
        decreases fh - y,
    {
        let mut x: u32 = 0;
        while x < fw
            invariant
                x <= fw,
                y < fh,
                fw == face.width,
                fh == face.height,
                face.wf(),
                atlas.wf(),
                atlas.width == w,
                atlas.height == h,
                before.wf(),
                before.width == w,
                before.height == h,
                x_off + fw <= w,
                y_off + fh <= h,
                forall|xx: int, yy: int|
                    0 <= xx < w && 0 <= yy < h ==> #[trigger] atlas.pixel(xx, yy) == if x_off
                        <= xx < x_off + fw && (y_off <= yy < y_off + y || (yy == y_off + y && xx
                        < x_off + x)) {
                        face.pixel(xx - x_off, yy - y_off)
                    } else {
                        before.pixel(xx, yy)
                    },
            decreases fw - x,
        {
            let p = face.get_pixel(x, y);
            let ghost prev = *atlas;
            atlas.put_pixel(x_off + x, y_off + y, p);
            proof {
                assert forall|xx: int, yy: int| 0 <= xx < w && 0 <= yy < h implies #[trigger] atlas.pixel(
                    xx,
                    yy,
                ) == if x_off <= xx < x_off + fw && (y_off <= yy < y_off + y || (yy == y_off + y
                    && xx < x_off + x + 1)) {
                    face.pixel(xx - x_off, yy - y_off)
                } else {
                    before.pixel(xx, yy)
                } by {
                    lemma_pixel_index(w as int, h as int, xx, yy);
                    lemma_pixel_index(w as int, h as int, (x_off + x) as int, (y_off + y) as int);
                    assert(prev.pixel(xx, yy) == prev.pixels@[pixel_index(w as int, xx, yy)]);
                }
            }
            x = x + 1;
        }
        y = y + 1;
    }
}

} // verus!
