//! Decisions of the render passes: pipeline options per material blend mode, which
//! draw items a PBR pass draws and in what order, and the indirect draw commands.

use vstd::prelude::*;
use crate::resources::{ResourceError, ResourceManager, UploadedMesh, MeshHandle, MAX_INDIRECT_DRAWS};

verus! {

/// How a material's surface combines with what is behind it.
#[derive(Debug, Clone, Copy, PartialEq, Eq, Structural)]
pub enum PbrBlendMode {
    Opaque,
    Masked,
    Transparent,
}

/// The number a material record stores for its blend mode (the shaders read it).
pub fn blend_mode_value(mode: PbrBlendMode) -> (r: u32)
    ensures
        r == (match mode {
            PbrBlendMode::Opaque => 0u32,
            PbrBlendMode::Masked => 1u32,
            PbrBlendMode::Transparent => 2u32,
        }),
{
    match mode {
        PbrBlendMode::Opaque => 0,
        PbrBlendMode::Masked => 1,
        PbrBlendMode::Transparent => 2,
    }
}

/// The color blending of a graphics pipeline.
#[derive(Debug, Clone, Copy, PartialEq, Eq, Structural)]
pub enum BlendingMode {
    AlphaBlend,
    Additive,
    NoBlend,
}

pub const BLEND_FACTOR_ZERO: i32 = 0;
pub const BLEND_FACTOR_ONE: i32 = 1;
pub const BLEND_FACTOR_SRC_ALPHA: i32 = 6;
pub const BLEND_FACTOR_ONE_MINUS_SRC_ALPHA: i32 = 7;
pub const BLEND_OP_ADD: i32 = 0;
pub const COLOR_COMPONENT_RGBA: u32 = 0xF;

/// `VkPipelineColorBlendAttachmentState` as raw values.
#[derive(Debug, Clone, Copy, PartialEq, Eq, Structural)]
pub struct ColorBlendAttachment {
    pub blend_enable: bool,
    pub src_color_blend_factor: i32,
    pub dst_color_blend_factor: i32,
    pub color_blend_op: i32,
    pub src_alpha_blend_factor: i32,
    pub dst_alpha_blend_factor: i32,
    pub alpha_blend_op: i32,
    pub color_write_mask: u32,
}

/// The blend state of every color attachment of a pipeline with `mode`: source color
/// weighted by source alpha; destination kept by one minus source alpha (alpha
/// blending), kept whole (additive), or blending off; alpha replaced.
pub fn create_color_blend_attachment(mode: BlendingMode) -> (r: ColorBlendAttachment)
    ensures
        r.blend_enable == (mode != BlendingMode::NoBlend),
        r.src_color_blend_factor == BLEND_FACTOR_SRC_ALPHA,
        r.dst_color_blend_factor == (match mode {
            BlendingMode::AlphaBlend => BLEND_FACTOR_ONE_MINUS_SRC_ALPHA,
            BlendingMode::Additive => BLEND_FACTOR_ONE,
            BlendingMode::NoBlend => BLEND_FACTOR_ZERO,
        }),
        r.color_blend_op == BLEND_OP_ADD,
        r.src_alpha_blend_factor == BLEND_FACTOR_ONE,
        r.dst_alpha_blend_factor == BLEND_FACTOR_ZERO,
        r.alpha_blend_op == BLEND_OP_ADD,
        r.color_write_mask == COLOR_COMPONENT_RGBA,
{
    let blend_attachment = ColorBlendAttachment {
        blend_enable: false,
        src_color_blend_factor: BLEND_FACTOR_SRC_ALPHA,
        dst_color_blend_factor: BLEND_FACTOR_ZERO,
        color_blend_op: BLEND_OP_ADD,
        src_alpha_blend_factor: BLEND_FACTOR_ONE,
        dst_alpha_blend_factor: BLEND_FACTOR_ZERO,
        alpha_blend_op: BLEND_OP_ADD,
        color_write_mask: COLOR_COMPONENT_RGBA,
    };
    match mode {
        BlendingMode::AlphaBlend => ColorBlendAttachment {
            blend_enable: true,
            dst_color_blend_factor: BLEND_FACTOR_ONE_MINUS_SRC_ALPHA,
            ..blend_attachment
        },
        BlendingMode::Additive => ColorBlendAttachment {
            blend_enable: true,
            dst_color_blend_factor: BLEND_FACTOR_ONE,
            ..blend_attachment
        },
        BlendingMode::NoBlend => ColorBlendAttachment { blend_enable: false, ..blend_attachment },
    }
}

/// One blend state per color attachment (the first plus `extra_attachments`), all with
/// the pipeline's blending mode.
pub fn color_blend_attachments(mode: BlendingMode, extra_attachments: usize) -> (r: Vec<ColorBlendAttachment>)
    requires
        extra_attachments < usize::MAX,
    ensures
        r@.len() == 1 + extra_attachments,
        forall|i: int| 0 <= i < r@.len() ==> #[trigger] r@[i] == create_color_blend_attachment_spec(mode),
{
    let single_blend = create_color_blend_attachment(mode);
    let n = 1 + extra_attachments;
    let mut v: Vec<ColorBlendAttachment> = Vec::new();
    let mut i: usize = 0;
    while i < n
        invariant
            i <= n,
            v@.len() == i,
            single_blend == create_color_blend_attachment_spec(mode),
            forall|k: int| 0 <= k < i ==> #[trigger] v@[k] == create_color_blend_attachment_spec(mode),
        decreases n - i,
    {
        v.push(single_blend);
        i = i + 1;
    }
    v
}

/// The blend state `create_color_blend_attachment` gives for `mode`.
pub open spec fn create_color_blend_attachment_spec(mode: BlendingMode) -> ColorBlendAttachment {
    ColorBlendAttachment {
        blend_enable: mode != BlendingMode::NoBlend,
        src_color_blend_factor: BLEND_FACTOR_SRC_ALPHA,
        dst_color_blend_factor: match mode {
            BlendingMode::AlphaBlend => BLEND_FACTOR_ONE_MINUS_SRC_ALPHA,
            BlendingMode::Additive => BLEND_FACTOR_ONE,
            BlendingMode::NoBlend => BLEND_FACTOR_ZERO,
        },
        color_blend_op: BLEND_OP_ADD,
        src_alpha_blend_factor: BLEND_FACTOR_ONE,
        dst_alpha_blend_factor: BLEND_FACTOR_ZERO,
        alpha_blend_op: BLEND_OP_ADD,
        color_write_mask: COLOR_COMPONENT_RGBA,
    }
}

/// The name a PBR pass reports for its blend mode.
pub fn pbr_pass_name(blend_mode: PbrBlendMode) -> (r: &'static str)
    ensures
        r@ == (match blend_mode {
            PbrBlendMode::Opaque => "PbrPass::Opaque"@,
            PbrBlendMode::Masked => "PbrPass::Masked"@,
            PbrBlendMode::Transparent => "PbrPass::Transparent"@,
        }),
{
    match blend_mode {
        PbrBlendMode::Opaque => "PbrPass::Opaque",
        PbrBlendMode::Masked => "PbrPass::Masked",
        PbrBlendMode::Transparent => "PbrPass::Transparent",
    }
}

pub const COMPARE_OP_GREATER_OR_EQUAL: i32 = 6;
pub const FORMAT_D32_SFLOAT: i32 = 126;

/// The pipeline options of a PBR pass for one blend mode.
#[derive(Debug, Clone, Copy, PartialEq, Eq, Structural)]
pub struct PbrPipelineOptions {
    /// Specialization constant 0: enable alpha-test discard.
    pub alpha_test: u32,
    pub enable_depth_write: bool,
    pub blending_mode: BlendingMode,
    /// Reverse depth: nearer fragments have greater depth.
    pub depth_compare_op: i32,
    pub depth_format: i32,
}

/// Masked materials alpha-test; transparent ones neither write depth nor skip
/// blending; opaque and masked ones draw without blending. Every PBR pass tests
/// depth with reverse depth (greater or equal passes) against a D32 float buffer.
pub fn pbr_pipeline_options(blend_mode: PbrBlendMode) -> (r: PbrPipelineOptions)
    ensures
        r.alpha_test == (if blend_mode == PbrBlendMode::Masked { 1u32 } else { 0u32 }),
        r.enable_depth_write == (blend_mode != PbrBlendMode::Transparent),
        r.blending_mode == (if blend_mode == PbrBlendMode::Transparent {
            BlendingMode::AlphaBlend
        } else {
            BlendingMode::NoBlend
        }),
        r.depth_compare_op == COMPARE_OP_GREATER_OR_EQUAL,
        r.depth_format == FORMAT_D32_SFLOAT,
{
    let alpha_test: u32 = if blend_mode == PbrBlendMode::Masked {
        1
    } else {
        0
    };
    PbrPipelineOptions {
        alpha_test,
        enable_depth_write: blend_mode != PbrBlendMode::Transparent,
        blending_mode: match blend_mode {
            PbrBlendMode::Opaque | PbrBlendMode::Masked => BlendingMode::NoBlend,
            PbrBlendMode::Transparent => BlendingMode::AlphaBlend,
        },
        depth_compare_op: COMPARE_OP_GREATER_OR_EQUAL,
        depth_format: FORMAT_D32_SFLOAT,
    }
}

/// `VkDrawIndexedIndirectCommand`.
#[derive(Debug, Clone, Copy, PartialEq, Eq, Structural)]
pub struct DrawIndexedIndirectCommand {
    pub index_count: u32,
    pub instance_count: u32,
    pub first_index: u32,
    pub vertex_offset: i32,
    pub first_instance: u32,
}

/// The draw items among the first `n` whose material has blend mode `mode`, in order.
pub open spec fn selected_items(modes: Seq<PbrBlendMode>, mode: PbrBlendMode, n: int) -> Seq<usize>
    decreases n,
{
    if n <= 0 {
        Seq::empty()
    } else if modes[n - 1] == mode {
        selected_items(modes, mode, n - 1).push((n - 1) as usize)
    } else {
        selected_items(modes, mode, n - 1)
    }
}

/// Draw item `a` is drawn before `b`: it is farther (smaller depth key), or as far and
/// earlier in the scene.
pub open spec fn draws_before(keys: Seq<i64>, a: usize, b: usize) -> bool {
    keys[a as int] < keys[b as int] || (keys[a as int] == keys[b as int] && a < b)
}

/// `s` lists its items strictly in `draws_before` order.
pub open spec fn sorted_back_to_front(keys: Seq<i64>, s: Seq<usize>) -> bool {
    forall|i: int, j: int| 0 <= i < j < s.len() ==> draws_before(keys, #[trigger] s[i], #[trigger] s[j])
}

/// `s` and `t` hold the same items (as sets; both are free of repeats).
pub open spec fn same_items(s: Seq<usize>, t: Seq<usize>) -> bool {
    s.len() == t.len() && forall|v: usize| s.contains(v) <==> t.contains(v)
}

proof fn lemma_selected_increasing(modes: Seq<PbrBlendMode>, mode: PbrBlendMode, n: int)
    requires
        0 <= n <= modes.len(),
        n <= usize::MAX,
    ensures
        forall|i: int, j: int|
            0 <= i < j < selected_items(modes, mode, n).len() ==> #[trigger] selected_items(modes, mode, n)[i]
                < #[trigger] selected_items(modes, mode, n)[j],
        forall|i: int|
            0 <= i < selected_items(modes, mode, n).len() ==> #[trigger] selected_items(modes, mode, n)[i] < n,
        selected_items(modes, mode, n).len() <= n,
    decreases n,
{
    if n > 0 {
        lemma_selected_increasing(modes, mode, n - 1);
    }
}

/// Sorts items (given in increasing order) back to front by depth key, ties kept in
/// scene order: a stable insertion sort.
fn sort_back_to_front(items: &Vec<usize>, keys: &[i64]) -> (r: Vec<usize>)
    requires
        forall|i: int| 0 <= i < items@.len() ==> #[trigger] items@[i] < keys@.len(),
        forall|i: int, j: int| 0 <= i < j < items@.len() ==> #[trigger] items@[i] < #[trigger] items@[j],
    ensures
        same_items(r@, items@),
        sorted_back_to_front(keys@, r@),
{
    let mut r: Vec<usize> = Vec::new();
    let n = items.len();
    let mut i: usize = 0;
    while i < n
        invariant
            i <= n,
            n == items@.len(),
            forall|k: int| 0 <= k < items@.len() ==> #[trigger] items@[k] < keys@.len(),
            forall|a: int, b: int| 0 <= a < b < items@.len() ==> #[trigger] items@[a] < #[trigger] items@[b],
            r@.len() == i,
            forall|v: usize| r@.contains(v) <==> items@.subrange(0, i as int).contains(v),
            sorted_back_to_front(keys@, r@),
            forall|k: int| 0 <= k < r@.len() ==> #[trigger] r@[k] < keys@.len(),
            i > 0 ==> forall|k: int| 0 <= k < r@.len() ==> #[trigger] r@[k] <= items@[i - 1],
        decreases n - i,
    {
        let x = items[i];
        let len = r.len();
        let mut p: usize = 0;
        while p < len && (keys[r[p]] < keys[x] || (keys[r[p]] == keys[x] && r[p] < x))
            invariant
                p <= len,
                len == r@.len(),
                x < keys@.len(),
                forall|k: int| 0 <= k < r@.len() ==> #[trigger] r@[k] < keys@.len(),
                forall|k: int| 0 <= k < p ==> draws_before(keys@, #[trigger] r@[k], x),
            decreases len - p,
        {
            p = p + 1;
        }
        proof {
            assert(forall|k: int| 0 <= k < r@.len() ==> #[trigger] r@[k] != x) by {
                if i > 0 {
                    assert(items@[i - 1] < items@[i as int]);
                }
            }
            assert forall|k: int| p <= k < r@.len() implies draws_before(keys@, x, #[trigger] r@[k]) by {
                assert(!draws_before(keys@, r@[p as int], x));
                assert(r@[p as int] != x);
                if k > p {
                    assert(draws_before(keys@, r@[p as int], r@[k]));
                }
            }
            r@.insert_ensures(p as int, x);
        }
        let ghost old_r = r@;
        r.insert(p, x);
        proof {
            let prev = items@.subrange(0, i as int);
            let next = items@.subrange(0, i + 1);
            assert(next =~= prev.push(x));
            assert forall|v: usize| r@.contains(v) <==> next.contains(v) by {
                if r@.contains(v) {
                    let k = choose|k: int| 0 <= k < r@.len() && r@[k] == v;
                    if k < p {
                        assert(old_r[k] == v);
                    } else if k > p {
                        assert(old_r[k - 1] == v);
                    }
                    if old_r.contains(v) {
                        let j = choose|j: int| 0 <= j < prev.len() && prev[j] == v;
                        assert(next[j] == v);
                    } else {
                        assert(next[i as int] == v);
                    }
                }
                if next.contains(v) {
                    let j = choose|j: int| 0 <= j < next.len() && next[j] == v;
                    if j < i {
                        assert(prev[j] == v);
                        assert(old_r.contains(v));
                        let k = choose|k: int| 0 <= k < old_r.len() && old_r[k] == v;
                        if k < p {
                            assert(r@[k] == v);
                        } else {
                            assert(r@[k + 1] == v);
                        }
                    } else {
                        assert(r@[p as int] == v);
                    }
                }
            }
            assert forall|a: int, b: int| 0 <= a < b < r@.len() implies draws_before(
                keys@,
                #[trigger] r@[a],
                #[trigger] r@[b],
            ) by {
                if b < p {
                    assert(draws_before(keys@, old_r[a], old_r[b]));
                } else if b == p {
                } else if a < p {
                    assert(draws_before(keys@, old_r[a], x));
                    assert(draws_before(keys@, x, old_r[b - 1]));
                } else if a == p {
                } else {
                    assert(draws_before(keys@, old_r[a - 1], old_r[b - 1]));
                }
            }
            assert forall|k: int| 0 <= k < r@.len() implies #[trigger] r@[k] <= items@[i as int] by {
                if k < p {
                    assert(r@[k] == old_r[k]);
                } else if k > p {
                    assert(r@[k] == old_r[k - 1]);
                }
                if k != p && i > 0 {
                    assert(items@[i - 1] < items@[i as int]);
                }
            }
        }
        i = i + 1;
    }
    proof {
        assert(items@.subrange(0, n as int) =~= items@);
    }
    r
}

/// The draw items a PBR pass for `pass_mode` draws, in drawing order: those whose
/// material has that blend mode, in scene order; for the transparent pass, back to
/// front by depth key (ties in scene order).
pub fn pbr_draw_order(pass_mode: PbrBlendMode, item_modes: &[PbrBlendMode], depth_keys: &[i64]) -> (r: Vec<usize>)
    requires
        pass_mode == PbrBlendMode::Transparent ==> depth_keys@.len() == item_modes@.len(),
    ensures
        pass_mode != PbrBlendMode::Transparent ==> r@ == selected_items(
            item_modes@,
            pass_mode,
            item_modes@.len() as int,
        ),
        pass_mode == PbrBlendMode::Transparent ==> same_items(
            r@,
            selected_items(item_modes@, pass_mode, item_modes@.len() as int),
        ) && sorted_back_to_front(depth_keys@, r@),
{
    let n = item_modes.len();
    let mut draw_indices: Vec<usize> = Vec::new();
    let mut i: usize = 0;
    while i < n
        invariant
            i <= n,
            n == item_modes@.len(),
            draw_indices@ == selected_items(item_modes@, pass_mode, i as int),
        decreases n - i,
    {
        if item_modes[i] == pass_mode {
            draw_indices.push(i);
        }
        i = i + 1;
    }
    if pass_mode == PbrBlendMode::Transparent {
        proof {
            lemma_selected_increasing(item_modes@, pass_mode, n as int);
        }
        sort_back_to_front(&draw_indices, depth_keys)
    } else {
        draw_indices
    }
}

/// The indirect command that draws item `idx` with mesh `mesh`.
pub open spec fn draw_command(mesh: UploadedMesh, idx: usize) -> DrawIndexedIndirectCommand {
    DrawIndexedIndirectCommand {
        index_count: mesh.index_count,
        instance_count: 1,
        first_index: mesh.index_offset,
        vertex_offset: mesh.vertex_offset,
        first_instance: idx as u32,
    }
}

/// One indirect draw per item of `order`: its mesh's indices, one instance whose index
/// is the draw item's index.
pub fn indirect_draw_commands<M: Copy>(
    rm: &ResourceManager<M>,
    order: &Vec<usize>,
    item_meshes: &[MeshHandle],
) -> (r: Vec<DrawIndexedIndirectCommand>)
    requires
        forall|k: int| 0 <= k < order@.len() ==> #[trigger] order@[k] < item_meshes@.len(),
        forall|i: int| 0 <= i < item_meshes@.len() ==> #[trigger] item_meshes@[i] < rm.meshes().len(),
    ensures
        r@.len() == order@.len(),
        forall|k: int|
            0 <= k < r@.len() ==> #[trigger] r@[k] == draw_command(
                rm.meshes()[item_meshes@[order@[k] as int] as int],
                order@[k],
            ),
{
    let mut commands: Vec<DrawIndexedIndirectCommand> = Vec::new();
    let n = order.len();
    let mut k: usize = 0;
    while k < n
        invariant
            k <= n,
            n == order@.len(),
            forall|kk: int| 0 <= kk < order@.len() ==> #[trigger] order@[kk] < item_meshes@.len(),
            forall|i: int| 0 <= i < item_meshes@.len() ==> #[trigger] item_meshes@[i] < rm.meshes().len(),
            commands@.len() == k,
            forall|kk: int|
                0 <= kk < k ==> #[trigger] commands@[kk] == draw_command(
                    rm.meshes()[item_meshes@[order@[kk] as int] as int],
                    order@[kk],
                ),
        decreases n - k,
    {
        let idx = order[k];
        let mesh = item_meshes[idx];
        commands.push(DrawIndexedIndirectCommand {
            index_count: rm.get_mesh_index_count(mesh),
            instance_count: 1,
            first_index: rm.get_mesh_index_offset(mesh),
            vertex_offset: rm.get_mesh_vertex_offset(mesh),
            first_instance: idx as u32,
        });
        k = k + 1;
    }
    commands
}

} // verus!

verus! {

proof fn lemma_selected_contains(modes: Seq<PbrBlendMode>, mode: PbrBlendMode, n: int, i: int)
    requires
        0 <= i < n <= modes.len(),
        n <= usize::MAX + 1,
    ensures
        selected_items(modes, mode, n).contains(i as usize) <==> modes[i] == mode,
    decreases n,
{
    lemma_selected_increasing(modes, mode, n - 1);
    if i < n - 1 {
        lemma_selected_contains(modes, mode, n - 1, i);
        let prev = selected_items(modes, mode, n - 1);
        if modes[n - 1] == mode {
            let cur = prev.push((n - 1) as usize);
            if cur.contains(i as usize) && !prev.contains(i as usize) {
                let k = choose|k: int| 0 <= k < cur.len() && cur[k] == i as usize;
                assert(k == prev.len());
            }
            if prev.contains(i as usize) {
                let k = choose|k: int| 0 <= k < prev.len() && prev[k] == i as usize;
                assert(cur[k] == i as usize);
            }
        }
    } else {
        let prev = selected_items(modes, mode, n - 1);
        assert forall|k: int| 0 <= k < prev.len() implies prev[k] != (n - 1) as usize by {
            assert(prev[k] < n - 1);
        }
        if modes[n - 1] == mode {
            assert(prev.push((n - 1) as usize)[prev.len() as int] == (n - 1) as usize);
        }
    }
}

/// The PBR passes share out the draw items: each item is drawn by the pass of its
/// material's blend mode and by no other.
pub proof fn lemma_each_item_drawn_by_its_pass(modes: Seq<PbrBlendMode>, i: int)
    requires
        0 <= i < modes.len(),
        modes.len() <= usize::MAX,
    ensures
        forall|mode: PbrBlendMode|
            #[trigger] selected_items(modes, mode, modes.len() as int).contains(i as usize) <==> modes[i] == mode,
{
    assert forall|mode: PbrBlendMode|
        #[trigger] selected_items(modes, mode, modes.len() as int).contains(i as usize) <==> modes[i] == mode by {
        lemma_selected_contains(modes, mode, modes.len() as int, i);
    }
}

} // verus!

verus! {

/// The size of one `VkDrawIndexedIndirectCommand` in the indirect buffer.
pub const DRAW_INDEXED_INDIRECT_STRIDE: u32 = 20;

/// One indirect indexed draw: where its commands start in the indirect buffer, how
/// many there are, and their stride.
#[derive(Debug, Clone, Copy, PartialEq, Eq, Structural)]
pub struct IndirectDrawCall {
    pub offset: u64,
    pub draw_count: u32,
    pub stride: u32,
}

/// The draw a pass records for `count` commands appended at index `first` of the
/// indirect buffer: none when the pass has no command; otherwise all of them in one
/// call, starting at byte `first * 20`, 20 bytes apart.
pub fn indirect_draw_call(first: u32, count: usize) -> (r: Option<IndirectDrawCall>)
    requires
        count <= u32::MAX,
    ensures
        count == 0 ==> r is None,
        count > 0 ==> r == Some(
            IndirectDrawCall { offset: (first * 20) as u64, draw_count: count as u32, stride: DRAW_INDEXED_INDIRECT_STRIDE },
        ),
{
    if count == 0 {
        None
    } else {
        Some(IndirectDrawCall {
            offset: (first as u64) * 20,
            draw_count: count as u32,
            stride: DRAW_INDEXED_INDIRECT_STRIDE,
        })
    }
}

/// What a PBR pass for `pass_mode` records for the scene's draw items (their materials'
/// blend modes, depth keys and mesh handles): the items it draws in order, one indirect
/// command per item appended to the frame's indirect buffer, and one indirect draw over
/// them. With no item of the pass's blend mode nothing is appended and nothing drawn;
/// when the indirect buffer cannot hold the commands, the pass fails and the buffer is
/// left as it was.
pub fn pbr_pass_draws<M: Copy>(
    rm: &mut ResourceManager<M>,
    pass_mode: PbrBlendMode,
    item_modes: &[PbrBlendMode],
    depth_keys: &[i64],
    item_meshes: &[MeshHandle],
) -> (r: Result<(Vec<usize>, Vec<DrawIndexedIndirectCommand>, Option<IndirectDrawCall>), ResourceError>)
    requires
        old(rm).wf(),
        item_meshes@.len() == item_modes@.len(),
        pass_mode == PbrBlendMode::Transparent ==> depth_keys@.len() == item_modes@.len(),
        forall|i: int| 0 <= i < item_meshes@.len() ==> #[trigger] item_meshes@[i] < old(rm).meshes().len(),
    ensures
        final(rm).wf(),
        final(rm).meshes() == old(rm).meshes(),
        final(rm).materials() == old(rm).materials(),
        ({
            let selected = selected_items(item_modes@, pass_mode, item_modes@.len() as int);
            let used = old(rm).indirect_draws_used();
            &&& selected.len() == 0 ==> (r matches Ok((order, cmds, call)) && order@.len() == 0 && cmds@.len() == 0
                && call is None) && final(rm).indirect_draws_used() == used
            &&& selected.len() > 0 && used + selected.len() > MAX_INDIRECT_DRAWS ==> r == Err::<
                (Vec<usize>, Vec<DrawIndexedIndirectCommand>, Option<IndirectDrawCall>),
                ResourceError,
            >(ResourceError::BufferOverflow) && final(rm).indirect_draws_used() == used
            &&& selected.len() > 0 && used + selected.len() <= MAX_INDIRECT_DRAWS ==> (r matches Ok((order, cmds, call))
                && call == Some(
                IndirectDrawCall {
                    offset: (used * 20) as u64,
                    draw_count: selected.len() as u32,
                    stride: DRAW_INDEXED_INDIRECT_STRIDE,
                },
            )) && final(rm).indirect_draws_used() == used + selected.len()
        }),
        r matches Ok((order, cmds, _)) ==> {
            &&& pass_mode != PbrBlendMode::Transparent ==> order@ == selected_items(
                item_modes@,
                pass_mode,
                item_modes@.len() as int,
            )
            &&& pass_mode == PbrBlendMode::Transparent ==> same_items(
                order@,
                selected_items(item_modes@, pass_mode, item_modes@.len() as int),
            ) && sorted_back_to_front(depth_keys@, order@)
            &&& cmds@.len() == order@.len()
            &&& forall|k: int|
                0 <= k < cmds@.len() ==> #[trigger] cmds@[k] == draw_command(
                    old(rm).meshes()[item_meshes@[order@[k] as int] as int],
                    order@[k],
                )
        },
{
    let n = item_modes.len();
    let order = pbr_draw_order(pass_mode, item_modes, depth_keys);
    let ghost selected = selected_items(item_modes@, pass_mode, item_modes@.len() as int);
    proof {
        lemma_selected_increasing(item_modes@, pass_mode, item_modes@.len() as int);
    }
    assert(order@.len() == selected.len());
    assert forall|k: int| 0 <= k < order@.len() implies #[trigger] order@[k] < item_meshes@.len() by {
        if pass_mode == PbrBlendMode::Transparent {
            assert(order@.contains(order@[k]));
            let j = choose|j: int| 0 <= j < selected.len() && selected[j] == order@[k];
            assert(selected[j] < item_modes@.len());
        }
    }
    let commands = indirect_draw_commands(rm, &order, item_meshes);
    if commands.len() == 0 {
        return Ok((order, commands, None));
    }
    let first = match rm.add_indirect_draw_commands(commands.len()) {
        Ok(first) => first,
        Err(e) => {
            return Err(e);
        },
    };
    let call = indirect_draw_call(first, commands.len());
    Ok((order, commands, call))
}

} // verus!
