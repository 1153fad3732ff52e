//! Prefiltered environment maps produced by cmgen: the layout of their files and the
//! packing of their mip levels into one atlas.

use vstd::prelude::*;
use crate::image::{RgbaF32Image, Rgba32, zero_texel, blit};

verus! {

/// The six cube faces of one prefiltered mip level, in cmgen's order
/// (+x, -x, +y, -y, +z, -z).
pub struct CmgenCubemapLevel {
    pub mip_level: u32,
    pub faces: [RgbaF32Image; 6],
}

/// Why a set of mip levels cannot be packed into an atlas.
#[derive(Debug, Clone, Copy, PartialEq, Eq, Structural)]
pub enum AtlasError {
    /// No mip level was given.
    EmptyMipList,
    /// The first face of the first level is empty or not square.
    BaseFaceNotSquare,
    /// The first face of the level with this mip number is empty or not square.
    FaceNotSquare { mip_level: u32 },
    /// A face of the level with this mip number differs in size from its first face.
    FaceSizeMismatch { mip_level: u32, face: usize },
}

/// The size of a level: the width of its first face.
pub open spec fn face_size(l: CmgenCubemapLevel) -> int {
    l.faces@[0].width as int
}

/// The first face of the level is non-empty and square.
pub open spec fn level_square(l: CmgenCubemapLevel) -> bool {
    l.faces@[0].width != 0 && l.faces@[0].height == l.faces@[0].width
}

/// Face `f` has the level's size in both directions.
pub open spec fn face_fits(l: CmgenCubemapLevel, f: int) -> bool {
    l.faces@[f].width == l.faces@[0].width && l.faces@[f].height == l.faces@[0].width
}

/// The first face from `f` on that does not fit, or 6 when all fit.
pub open spec fn first_mismatch(l: CmgenCubemapLevel, f: int) -> int
    decreases 6 - f,
{
    if f >= 6 {
        6
    } else if !face_fits(l, f) {
        f
    } else {
        first_mismatch(l, f + 1)
    }
}

/// The level is square and all six faces have its size.
pub open spec fn level_valid(l: CmgenCubemapLevel) -> bool {
    level_square(l) && first_mismatch(l, 0) == 6
}

/// What is wrong with a level, if anything.
pub open spec fn level_error(l: CmgenCubemapLevel) -> Option<AtlasError> {
    if !level_square(l) {
        Some(AtlasError::FaceNotSquare { mip_level: l.mip_level })
    } else if first_mismatch(l, 0) < 6 {
        Some(AtlasError::FaceSizeMismatch { mip_level: l.mip_level, face: first_mismatch(l, 0) as usize })
    } else {
        None
    }
}

/// The error of the first faulty level from `i` on.
pub open spec fn first_level_error(levels: Seq<CmgenCubemapLevel>, i: int) -> Option<AtlasError>
    decreases levels.len() - i,
{
    if i < 0 || i >= levels.len() {
        None
    } else {
        match level_error(levels[i]) {
            Some(e) => Some(e),
            None => first_level_error(levels, i + 1),
        }
    }
}

/// The sum of the heights of the first faces of the first `n` levels.
pub open spec fn heights_sum(levels: Seq<CmgenCubemapLevel>, n: int) -> int
    decreases n,
{
    if n <= 0 {
        0
    } else {
        heights_sum(levels, n - 1) + levels[n - 1].faces@[0].height
    }
}

/// The texel of the atlas at column `x` and row `y` relative to the top of level `i`:
/// levels are stacked from the top, each one a row of its six faces side by side;
/// whatever no face covers is zero.
pub open spec fn atlas_texel_from(levels: Seq<CmgenCubemapLevel>, i: int, y: int, x: int) -> Rgba32
    decreases levels.len() - i,
{
    if i < 0 || i >= levels.len() || y < 0 {
        zero_texel()
    } else if y < face_size(levels[i]) {
        if x < 6 * face_size(levels[i]) {
            levels[i].faces@[x / face_size(levels[i])].pixel(x % face_size(levels[i]), y)
        } else {
            zero_texel()
        }
    } else {
        atlas_texel_from(levels, i + 1, y - face_size(levels[i]), x)
    }
}

/// The atlas texel at column `x`, row `y`.
pub open spec fn atlas_texel(levels: Seq<CmgenCubemapLevel>, x: int, y: int) -> Rgba32 {
    atlas_texel_from(levels, 0, y, x)
}

/// Every face of every level is a well-formed image.
pub open spec fn levels_wf(levels: Seq<CmgenCubemapLevel>) -> bool {
    forall|i: int, f: int| 0 <= i < levels.len() && 0 <= f < 6 ==> (#[trigger] levels[i].faces@[f]).wf()
}

/// Each level that the atlas loop reaches (all levels before it valid, its first face
/// square) fits its faces that it copies into the atlas width.
pub open spec fn atlas_copies_fit(levels: Seq<CmgenCubemapLevel>) -> bool {
    forall|i: int|
        #![trigger levels[i]]
        0 <= i < levels.len() && (forall|k: int| 0 <= k < i ==> level_valid(#[trigger] levels[k]))
            && level_square(levels[i]) ==> first_mismatch(levels[i], 0) * face_size(levels[i])
            <= 6 * face_size(levels[0])
}

/// Packing these levels neither overflows nor writes outside the atlas.
pub open spec fn atlas_buildable(levels: Seq<CmgenCubemapLevel>) -> bool {
    levels.len() > 0 && level_square(levels[0]) ==> {
        &&& 6 * face_size(levels[0]) <= u32::MAX
        &&& heights_sum(levels, levels.len() as int) <= u32::MAX
        &&& 6 * face_size(levels[0]) * heights_sum(levels, levels.len() as int) <= usize::MAX
        &&& atlas_copies_fit(levels)
    }
}

proof fn lemma_first_mismatch_at(l: CmgenCubemapLevel, g: int, f: int)
    requires
        0 <= g <= f <= 6,
        forall|h: int| g <= h < f ==> face_fits(l, h),
        f == 6 || !face_fits(l, f),
    ensures
        first_mismatch(l, g) == f,
    decreases f - g,
{
    if g < f {
        lemma_first_mismatch_at(l, g + 1, f);
    }
}

proof fn lemma_first_mismatch_bounds(l: CmgenCubemapLevel, g: int)
    requires
        0 <= g <= 6,
    ensures
        g <= first_mismatch(l, g) <= 6,
    decreases 6 - g,
{
    if g < 6 {
        lemma_first_mismatch_bounds(l, g + 1);
    }
}

proof fn lemma_first_mismatch_above(l: CmgenCubemapLevel, g: int, f: int)
    requires
        0 <= g <= f < 6,
        forall|h: int| g <= h <= f ==> face_fits(l, h),
    ensures
        first_mismatch(l, g) > f,
    decreases f - g,
{
    if g < f {
        lemma_first_mismatch_above(l, g + 1, f);
    } else {
        lemma_first_mismatch_bounds(l, f + 1);
    }
}

proof fn lemma_heights_sum_monotone(levels: Seq<CmgenCubemapLevel>, a: int, b: int)
    requires
        0 <= a <= b <= levels.len(),
    ensures
        heights_sum(levels, a) <= heights_sum(levels, b),
    decreases b - a,
{
    if a < b {
        lemma_heights_sum_monotone(levels, a, b - 1);
    }
}

proof fn lemma_atlas_texel_skip(levels: Seq<CmgenCubemapLevel>, li: int, y: int, x: int)
    requires
        0 <= li <= levels.len(),
        forall|k: int| 0 <= k < li ==> level_valid(#[trigger] levels[k]),
        y >= heights_sum(levels, li),
    ensures
        atlas_texel_from(levels, 0, y, x) == atlas_texel_from(levels, li, y - heights_sum(levels, li), x),
    decreases li,
{
    if li > 0 {
        assert(level_valid(levels[li - 1]));
        lemma_atlas_texel_skip(levels, li - 1, y, x);
    }
}

proof fn lemma_face_column(x: int, fs: int, f: int)
    requires
        fs > 0,
        f * fs <= x < f * fs + fs,
    ensures
        x / fs == f,
        x % fs == x - f * fs,
{
    vstd::arithmetic::div_mod::lemma_fundamental_div_mod_converse(x, fs, f, x - f * fs);
}

} // verus!

verus! {

/// Packs the prefiltered mip levels into one RGBA32F atlas: level after level from
/// the top, each level one row of its six faces side by side; the atlas is six base
/// faces wide and as high as all levels together, and what no face covers is zero.
pub fn build_prefiltered_atlas(levels: &[CmgenCubemapLevel]) -> (r: Result<RgbaF32Image, AtlasError>)
    requires
        levels_wf(levels@),
        atlas_buildable(levels@),
    ensures
        levels@.len() == 0 ==> r == Err::<RgbaF32Image, AtlasError>(AtlasError::EmptyMipList),
        levels@.len() > 0 && !level_square(levels@[0]) ==> r == Err::<RgbaF32Image, AtlasError>(
            AtlasError::BaseFaceNotSquare,
        ),
        levels@.len() > 0 && level_square(levels@[0]) ==> match first_level_error(levels@, 0) {
            Some(e) => r == Err::<RgbaF32Image, AtlasError>(e),
            None => r matches Ok(atlas) && {
                &&& atlas.wf()
                &&& atlas.width == 6 * face_size(levels@[0])
                &&& atlas.height == heights_sum(levels@, levels@.len() as int)
                &&& forall|x: int, y: int|
                    0 <= x < atlas.width && 0 <= y < atlas.height ==> #[trigger] atlas.pixel(x, y)
                        == atlas_texel(levels@, x, y)
            },
        },
{
    let n = levels.len();
    if n == 0 {
        return Err(AtlasError::EmptyMipList);
    }

    let base_face_size = levels[0].faces[0].width();
    if base_face_size == 0 || levels[0].faces[0].height() != base_face_size {
        return Err(AtlasError::BaseFaceNotSquare);
    }

    let atlas_width = base_face_size * 6;
    let mut atlas_height: u32 = 0;
    let mut k: usize = 0;
    while k < n
        invariant
            k <= n,
            n == levels@.len(),
            atlas_height == heights_sum(levels@, k as int),
            heights_sum(levels@, n as int) <= u32::MAX,
        decreases n - k,
    {
        proof {
            lemma_heights_sum_monotone(levels@, k + 1, n as int);
        }
        atlas_height = atlas_height + levels[k].faces[0].height();
        k = k + 1;
    }

    proof {
        vstd::arithmetic::mul::lemma_mul_is_commutative(base_face_size as int, 6);
    }
    let mut atlas = RgbaF32Image::new(atlas_width, atlas_height);

    proof {
        assert forall|x: int, y: int| 0 <= x < atlas_width && 0 <= y < atlas_height implies #[trigger] atlas.pixel(
            x,
            y,
        ) == zero_texel() by {
            crate::image::lemma_pixel_index(atlas_width as int, atlas_height as int, x, y);
        }
    }
    let mut y_offset: u32 = 0;
    let mut li: usize = 0;
    while li < n
        invariant
            li <= n,
            n == levels@.len(),
            levels_wf(levels@),
            atlas_buildable(levels@),
            level_square(levels@[0]),
            base_face_size == face_size(levels@[0]),
            atlas_width == 6 * base_face_size,
            atlas_height == heights_sum(levels@, n as int),
            atlas.wf(),
            atlas.width == atlas_width,
            atlas.height == atlas_height,
            forall|kk: int| 0 <= kk < li ==> level_valid(#[trigger] levels@[kk]),
            first_level_error(levels@, 0) == first_level_error(levels@, li as int),
            y_offset == heights_sum(levels@, li as int),
            forall|x: int, y: int|
                0 <= x < atlas_width && 0 <= y < atlas_height ==> #[trigger] atlas.pixel(x, y) == if y
                    < y_offset {
                    atlas_texel(levels@, x, y)
                } else {
                    zero_texel()
                },
        decreases n - li,
    {
        let level = &levels[li];
        let face_size_now = level.faces[0].width();
        if face_size_now == 0 || level.faces[0].height() != face_size_now {
            return Err(AtlasError::FaceNotSquare { mip_level: level.mip_level });
        }
        let ghost lv = levels@[li as int];
        let ghost fs = face_size_now as int;
        proof {
            lemma_heights_sum_monotone(levels@, li + 1, n as int);
            assert(atlas_copies_fit(levels@));
            assert(levels@[li as int] == lv);
        }

        let mut f: usize = 0;
        while f < 6
            invariant
                f <= 6,
                li < n,
                n == levels@.len(),
                levels_wf(levels@),
                lv == levels@[li as int],
                *level == lv,
                level_square(levels@[0]),
                base_face_size == face_size(levels@[0]),
                atlas_height == heights_sum(levels@, n as int),
                forall|kk: int| 0 <= kk < li ==> level_valid(#[trigger] levels@[kk]),
                first_level_error(levels@, 0) == first_level_error(levels@, li as int),
                y_offset == heights_sum(levels@, li as int),
                level_square(lv),
                fs == face_size(lv),
                fs == face_size_now,
                fs > 0,
                first_mismatch(lv, 0) * fs <= atlas_width,
                atlas_width == 6 * base_face_size,
                atlas.wf(),
                atlas.width == atlas_width,
                atlas.height == atlas_height,
                y_offset + fs <= atlas_height,
                forall|g: int| 0 <= g < f ==> face_fits(lv, g),
                forall|x: int, y: int|
                    0 <= x < atlas_width && 0 <= y < atlas_height ==> #[trigger] atlas.pixel(x, y) == if y
                        < y_offset {
                        atlas_texel(levels@, x, y)
                    } else if y < y_offset + fs && x < f * fs {
                        lv.faces@[x / fs].pixel(x % fs, y - y_offset)
                    } else {
                        zero_texel()
                    },
            decreases 6 - f,
        {
            let face = &level.faces[f];
            if face.width() != face_size_now || face.height() != face_size_now {
                proof {
                    assert(!face_fits(lv, f as int));
                    lemma_first_mismatch_at(lv, 0, f as int);
                    assert(level_error(lv) == Some(AtlasError::FaceSizeMismatch { mip_level: level.mip_level, face: f }));
                    assert(first_level_error(levels@, li as int) == level_error(lv));
                }
                return Err(AtlasError::FaceSizeMismatch { mip_level: level.mip_level, face: f });
            }
            proof {
                lemma_first_mismatch_above(lv, 0, f as int);
                vstd::arithmetic::mul::lemma_mul_inequality(f as int + 1, first_mismatch(lv, 0), fs);
                vstd::arithmetic::mul::lemma_mul_is_distributive_add(fs, f as int, 1);
                vstd::arithmetic::mul::lemma_mul_is_commutative(fs, f as int);
                vstd::arithmetic::mul::lemma_mul_is_commutative(fs, f as int + 1);
                assert(levels@[li as int].faces@[f as int].wf());
            }
            let x_offset = (f as u32) * face_size_now;
            let ghost before = atlas;
            blit(&mut atlas, face, x_offset, y_offset);
            proof {
                assert forall|x: int, y: int| 0 <= x < atlas_width && 0 <= y < atlas_height implies #[trigger] atlas.pixel(
                    x,
                    y,
                ) == if y < y_offset {
                    atlas_texel(levels@, x, y)
                } else if y < y_offset + fs && x < (f + 1) * fs {
                    lv.faces@[x / fs].pixel(x % fs, y - y_offset)
                } else {
                    zero_texel()
                } by {
                    assert(before.pixel(x, y) == if y < y_offset {
                        atlas_texel(levels@, x, y)
                    } else if y < y_offset + fs && x < f * fs {
                        lv.faces@[x / fs].pixel(x % fs, y - y_offset)
                    } else {
                        zero_texel()
                    });
                    if f * fs <= x < f * fs + fs {
                        lemma_face_column(x, fs, f as int);
                    }
                }
            }
            f = f + 1;
        }

        proof {
            lemma_first_mismatch_at(lv, 0, 6);
            assert(level_valid(lv));
            assert(level_error(lv) is None);
            assert forall|x: int, y: int| 0 <= x < atlas_width && 0 <= y < atlas_height implies #[trigger] atlas.pixel(
                x,
                y,
            ) == if y < y_offset + fs {
                atlas_texel(levels@, x, y)
            } else {
                zero_texel()
            } by {
                if y_offset <= y < y_offset + fs {
                    lemma_atlas_texel_skip(levels@, li as int, y, x);
                }
            }
        }
        y_offset = y_offset + face_size_now;
        li = li + 1;
    }
    Ok(atlas)
}

} // verus!

verus! {

/// The index of the first face of `l` that does not have the size of its first face,
/// or 6.
fn find_first_mismatch(l: &CmgenCubemapLevel) -> (r: usize)
    ensures
        r == first_mismatch(*l, 0),
        r <= 6,
{
    let w = l.faces[0].width;
    let mut f: usize = 0;
    while f < 6
        invariant
            f <= 6,
            w == l.faces@[0].width,
            first_mismatch(*l, 0) == first_mismatch(*l, f as int),
        decreases 6 - f,
    {
        if l.faces[f].width != w || l.faces[f].height != w {
            return f;
        }
        f = f + 1;
    }
    6
}

/// Whether packing `levels` stays within the integer ranges and the atlas (the
/// condition `build_prefiltered_atlas` needs; on other inputs packing them would
/// overflow or write outside the atlas).
pub fn atlas_fits(levels: &[CmgenCubemapLevel]) -> (r: bool)
    ensures
        r == atlas_buildable(levels@),
{
    let n = levels.len();
    if n == 0 {
        return true;
    }
    let base = levels[0].faces[0].width;
    if base == 0 || levels[0].faces[0].height != base {
        return true;
    }
    if base > u32::MAX / 6 {
        return false;
    }
    let atlas_width: u64 = 6 * (base as u64);
    let mut sum: u64 = 0;
    let mut k: usize = 0;
    while k < n
        invariant
            k <= n,
            n == levels@.len(),
            sum == heights_sum(levels@, k as int),
            sum <= u32::MAX,
            n > 0,
            level_square(levels@[0]),
        decreases n - k,
    {
        let next = sum + (levels[k].faces[0].height as u64);
        assert(heights_sum(levels@, k + 1) == next);
        if next > u32::MAX as u64 {
            proof {
                lemma_heights_sum_monotone(levels@, k + 1, n as int);
            }
            return false;
        }
        sum = next;
        k = k + 1;
    }
    assert(atlas_width * sum <= 0xFFFF_FFFF_FFFF_FFFF) by (nonlinear_arith)
        requires
            atlas_width <= 0xFFFF_FFFF,
            sum <= 0xFFFF_FFFF,
    ;
    let product: u128 = (atlas_width as u128) * (sum as u128);
    assert(product == atlas_width * sum);
    assert(sum == heights_sum(levels@, levels@.len() as int));
    if product > usize::MAX as u128 {
        assert(6 * face_size(levels@[0]) * heights_sum(levels@, levels@.len() as int) > usize::MAX);
        return false;
    }
    let mut i: usize = 0;
    while i < n
        invariant
            i <= n,
            n == levels@.len(),
            n > 0,
            level_square(levels@[0]),
            atlas_width == 6 * face_size(levels@[0]),
            6 * face_size(levels@[0]) <= u32::MAX,
            heights_sum(levels@, levels@.len() as int) <= u32::MAX,
            6 * face_size(levels@[0]) * heights_sum(levels@, levels@.len() as int) <= usize::MAX,
            forall|k: int| 0 <= k < i ==> level_valid(#[trigger] levels@[k]),
            forall|j: int|
                #![trigger levels@[j]]
                0 <= j < i && (forall|k: int| 0 <= k < j ==> level_valid(#[trigger] levels@[k])) && level_square(
                    levels@[j],
                ) ==> first_mismatch(levels@[j], 0) * face_size(levels@[j]) <= 6 * face_size(levels@[0]),
        decreases n - i,
    {
        let l = &levels[i];
        let fs = l.faces[0].width;
        let square = fs != 0 && l.faces[0].height == fs;
        let m = find_first_mismatch(l);
        assert((m as u64) * (fs as u64) <= 6 * 0xFFFF_FFFFu64) by (nonlinear_arith)
            requires
                m <= 6,
                fs <= 0xFFFF_FFFFu32,
        ;
        if square {
            if (m as u64) * (fs as u64) > atlas_width {
                return false;
            }
        }
        if !square || m < 6 {
            proof {
                assert forall|j: int|
                    #![trigger levels@[j]]
                    0 <= j < n && (forall|k: int| 0 <= k < j ==> level_valid(#[trigger] levels@[k])) && level_square(
                        levels@[j],
                    ) implies first_mismatch(levels@[j], 0) * face_size(levels@[j]) <= 6 * face_size(levels@[0]) by {
                    if j > i {
                        assert(!level_valid(levels@[i as int]));
                    }
                }
            }
            return true;
        }
        i = i + 1;
    }
    true
}

} // verus!
