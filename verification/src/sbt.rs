//! Shader binding table layout for ray tracing pipelines.

use vstd::prelude::*;
use vstd::arithmetic::power2::pow2;
use vstd::bits::low_bits_mask;

verus! {

/// `a` is a power of two that fits in 64 bits.
pub open spec fn is_power_of_two(a: u64) -> bool {
    exists|k: nat| k < 64 && pow2(k) == a
}

/// The smallest multiple of `alignment` that is not below `value`.
pub open spec fn align_up_spec(value: int, alignment: int) -> int {
    ((value + alignment - 1) / alignment) * alignment
}

proof fn lemma_and_not_is_sub(x: u64, m: u64)
    by (bit_vector)
    ensures
        x & !m == x - (x & m),
{
}

proof fn lemma_mask_is_mod(x: u64, a: u64)
    requires
        is_power_of_two(a),
    ensures
        a >= 1,
        x & !((a - 1) as u64) == x - x % a,
{
    let k = choose|k: nat| k < 64 && pow2(k) == a;
    vstd::bits::lemma_u64_low_bits_mask_is_mod(x, k);
    vstd::arithmetic::power2::lemma_pow2_pos(k);
    assert(low_bits_mask(k) == pow2(k) - 1);
    lemma_and_not_is_sub(x, (a - 1) as u64);
}

proof fn lemma_align_up_value(value: int, alignment: int)
    requires
        alignment >= 1,
        value >= 0,
    ensures
        (value + alignment - 1) - (value + alignment - 1) % alignment == align_up_spec(value, alignment),
        align_up_spec(value, alignment) % alignment == 0,
        value <= align_up_spec(value, alignment) < value + alignment,
{
    let x = value + alignment - 1;
    vstd::arithmetic::div_mod::lemma_fundamental_div_mod(x, alignment);
    vstd::arithmetic::mul::lemma_mul_is_commutative(x / alignment, alignment);
    vstd::arithmetic::div_mod::lemma_mod_multiples_basic(x / alignment, alignment);
    vstd::arithmetic::div_mod::lemma_mod_bound(x, alignment);
}

/// Rounds `value` up to a multiple of the power of two `alignment`.
pub fn align_up_u64(value: u64, alignment: u64) -> (r: u64)
    requires
        is_power_of_two(alignment),
        value + alignment - 1 <= u64::MAX,
    ensures
        r == align_up_spec(value as int, alignment as int),
        r % alignment == 0,
        value <= r < value + alignment,
{
    proof {
        lemma_power_of_two_positive(alignment);
        lemma_mask_is_mod((value + alignment - 1) as u64, alignment);
        lemma_align_up_value(value as int, alignment as int);
    }
    (value + (alignment - 1)) & !(alignment - 1)
}

proof fn lemma_power_of_two_positive(a: u64)
    requires
        is_power_of_two(a),
    ensures
        a >= 1,
{
    let k = choose|k: nat| k < 64 && pow2(k) == a;
    vstd::arithmetic::power2::lemma_pow2_pos(k);
}

} // verus!

verus! {

/// Description of the SBT regions for a custom RT pipeline.
/// The caller is responsible for ensuring the counts match the groups passed to the pipeline.
#[derive(Debug, Clone, Copy, PartialEq, Eq, Structural)]
pub struct RtSbtDesc {
    /// Number of miss shader groups (consecutive in the groups slice after raygen).
    pub num_miss_groups: u32,
    /// Number of hit groups (consecutive in the groups slice after miss groups).
    pub num_hit_groups: u32,
}

/// The ray tracing pipeline properties of the device that the table layout depends on.
#[derive(Debug, Clone, Copy, PartialEq, Eq, Structural)]
pub struct RtPipelineProperties {
    pub shader_group_handle_size: u32,
    pub shader_group_handle_alignment: u32,
    pub shader_group_base_alignment: u32,
}

/// Where each region of a shader binding table lies, in bytes from its start.
///
/// Layout: one raygen entry, then the miss region, then the hit region; every
/// region starts on the base alignment and entries are `entry_stride` apart.
#[derive(Debug, Clone, Copy, PartialEq, Eq, Structural)]
pub struct SbtLayout {
    pub handle_size: u64,
    pub entry_stride: u64,
    pub num_miss: u64,
    pub num_hit: u64,
    pub raygen_offset: u64,
    pub raygen_size: u64,
    pub miss_offset: u64,
    pub miss_size: u64,
    pub hit_offset: u64,
    pub hit_size: u64,
    pub total_size: u64,
}

/// `VkStridedDeviceAddressRegionKHR` as raw values.
#[derive(Debug, Clone, Copy, PartialEq, Eq, Structural)]
pub struct StridedDeviceAddressRegion {
    pub device_address: u64,
    pub stride: u64,
    pub size: u64,
}

/// The device addresses of the four regions of a shader binding table.
#[derive(Debug, Clone, Copy, PartialEq, Eq, Structural)]
pub struct SbtRegions {
    pub raygen_region: StridedDeviceAddressRegion,
    pub miss_region: StridedDeviceAddressRegion,
    pub hit_region: StridedDeviceAddressRegion,
    pub callable_region: StridedDeviceAddressRegion,
}

pub open spec fn spec_entry_stride(props: RtPipelineProperties) -> int {
    align_up_spec(props.shader_group_handle_size as int, props.shader_group_handle_alignment as int)
}

pub open spec fn spec_miss_size(props: RtPipelineProperties, desc: RtSbtDesc) -> int {
    align_up_spec(
        spec_entry_stride(props) * desc.num_miss_groups,
        props.shader_group_base_alignment as int,
    )
}

pub open spec fn spec_hit_size(props: RtPipelineProperties, desc: RtSbtDesc) -> int {
    align_up_spec(
        spec_entry_stride(props) * desc.num_hit_groups,
        props.shader_group_base_alignment as int,
    )
}

pub open spec fn spec_miss_offset(props: RtPipelineProperties) -> int {
    align_up_spec(spec_entry_stride(props), props.shader_group_base_alignment as int)
}

pub open spec fn spec_hit_offset(props: RtPipelineProperties, desc: RtSbtDesc) -> int {
    align_up_spec(
        spec_miss_offset(props) + spec_miss_size(props, desc),
        props.shader_group_base_alignment as int,
    )
}

/// The layout of the table for the given device properties and group counts.
pub open spec fn sbt_layout_spec(props: RtPipelineProperties, desc: RtSbtDesc) -> SbtLayout {
    SbtLayout {
        handle_size: props.shader_group_handle_size as u64,
        entry_stride: spec_entry_stride(props) as u64,
        num_miss: desc.num_miss_groups as u64,
        num_hit: desc.num_hit_groups as u64,
        raygen_offset: 0,
        raygen_size: spec_entry_stride(props) as u64,
        miss_offset: spec_miss_offset(props) as u64,
        miss_size: spec_miss_size(props, desc) as u64,
        hit_offset: spec_hit_offset(props, desc) as u64,
        hit_size: spec_hit_size(props, desc) as u64,
        total_size: (spec_hit_offset(props, desc) + spec_hit_size(props, desc)) as u64,
    }
}

/// The alignments are powers of two (Vulkan guarantees it) and no step of the layout
/// computation leaves 64 bits.
pub open spec fn sbt_layout_computable(props: RtPipelineProperties, desc: RtSbtDesc) -> bool {
    &&& is_power_of_two(props.shader_group_handle_alignment as u64)
    &&& is_power_of_two(props.shader_group_base_alignment as u64)
    &&& props.shader_group_handle_size + props.shader_group_handle_alignment - 1 <= u64::MAX
    &&& spec_entry_stride(props) * desc.num_miss_groups + props.shader_group_base_alignment - 1
        <= u64::MAX
    &&& spec_entry_stride(props) * desc.num_hit_groups + props.shader_group_base_alignment - 1
        <= u64::MAX
    &&& spec_entry_stride(props) + props.shader_group_base_alignment - 1 <= u64::MAX
    &&& spec_miss_offset(props) + spec_miss_size(props, desc) + props.shader_group_base_alignment - 1
        <= u64::MAX
    &&& spec_hit_offset(props, desc) + spec_hit_size(props, desc) <= u64::MAX
}

/// A layout in which the regions follow each other without overlap, each region
/// starts on the base alignment and holds all of its entries, and each entry holds
/// a handle.
pub open spec fn sbt_layout_sound(l: SbtLayout, base_alignment: int) -> bool {
    &&& l.handle_size <= l.entry_stride
    &&& l.raygen_offset == 0
    &&& l.raygen_size == l.entry_stride
    &&& l.raygen_offset + l.raygen_size <= l.miss_offset
    &&& l.num_miss * l.entry_stride <= l.miss_size
    &&& l.miss_offset + l.miss_size <= l.hit_offset
    &&& l.num_hit * l.entry_stride <= l.hit_size
    &&& l.hit_offset + l.hit_size == l.total_size
    &&& (l.miss_offset as int) % base_alignment == 0
    &&& (l.hit_offset as int) % base_alignment == 0
}

/// Computes where the raygen, miss and hit regions of the table lie.
pub fn compute_sbt_layout(props: RtPipelineProperties, sbt_desc: RtSbtDesc) -> (r: SbtLayout)
    requires
        sbt_layout_computable(props, sbt_desc),
    ensures
        r == sbt_layout_spec(props, sbt_desc),
{
    let handle_size = props.shader_group_handle_size as u64;
    let handle_alignment = props.shader_group_handle_alignment as u64;
    let base_alignment = props.shader_group_base_alignment as u64;
    proof {
        lemma_power_of_two_positive(base_alignment);
    }

    let entry_stride = align_up_u64(handle_size, handle_alignment);

    let num_miss = sbt_desc.num_miss_groups as u64;
    let num_hit = sbt_desc.num_hit_groups as u64;

    // Raygen region: exactly 1 entry
    let raygen_size = entry_stride;
    // Miss region: num_miss entries
    let miss_size = align_up_u64(entry_stride * num_miss, base_alignment);
    // Hit region: num_hit entries
    let hit_size = align_up_u64(entry_stride * num_hit, base_alignment);

    let raygen_offset: u64 = 0;
    let miss_offset = align_up_u64(raygen_offset + raygen_size, base_alignment);
    let hit_offset = align_up_u64(miss_offset + miss_size, base_alignment);
    let total_size = hit_offset + hit_size;

    SbtLayout {
        handle_size,
        entry_stride,
        num_miss,
        num_hit,
        raygen_offset,
        raygen_size,
        miss_offset,
        miss_size,
        hit_offset,
        hit_size,
        total_size,
    }
}

proof fn lemma_align_up_facts(value: int, alignment: int)
    requires
        alignment >= 1,
        value >= 0,
    ensures
        align_up_spec(value, alignment) % alignment == 0,
        value <= align_up_spec(value, alignment) < value + alignment,
{
    lemma_align_up_value(value, alignment);
}

/// The computed layout is sound: regions are disjoint, aligned, and large enough for
/// their entries, and each entry is large enough for a handle.
pub proof fn lemma_sbt_layout_sound(props: RtPipelineProperties, desc: RtSbtDesc)
    requires
        sbt_layout_computable(props, desc),
    ensures
        sbt_layout_sound(
            sbt_layout_spec(props, desc),
            props.shader_group_base_alignment as int,
        ),
        sbt_layout_sound(sbt_layout_spec(props, desc), 1),
{
    let ha = props.shader_group_handle_alignment as int;
    let ba = props.shader_group_base_alignment as int;
    let k1 = choose|k: nat| k < 64 && pow2(k) == props.shader_group_handle_alignment as u64;
    let k2 = choose|k: nat| k < 64 && pow2(k) == props.shader_group_base_alignment as u64;
    vstd::arithmetic::power2::lemma_pow2_pos(k1);
    vstd::arithmetic::power2::lemma_pow2_pos(k2);
    lemma_align_up_facts(props.shader_group_handle_size as int, ha);
    let es = spec_entry_stride(props);
    vstd::arithmetic::mul::lemma_mul_nonnegative(es, desc.num_miss_groups as int);
    vstd::arithmetic::mul::lemma_mul_nonnegative(es, desc.num_hit_groups as int);
    vstd::arithmetic::mul::lemma_mul_is_commutative(es, desc.num_miss_groups as int);
    vstd::arithmetic::mul::lemma_mul_is_commutative(es, desc.num_hit_groups as int);
    lemma_align_up_facts(es * desc.num_miss_groups, ba);
    lemma_align_up_facts(es * desc.num_hit_groups, ba);
    lemma_align_up_facts(es, ba);
    lemma_align_up_facts(spec_miss_offset(props) + spec_miss_size(props, desc), ba);
}

} // verus!

verus! {

/// The byte that an entry region puts at offset `p` of the table, if it covers `p`:
/// `count` entries `stride` apart from `offset`, the `j`-th holding the handle of group
/// `first_group + j`.
pub open spec fn entry_byte(
    handles: Seq<u8>,
    handle_size: int,
    stride: int,
    offset: int,
    first_group: int,
    count: int,
    p: int,
) -> Option<u8> {
    if offset <= p < offset + count * stride && (p - offset) % stride < handle_size {
        Some(handles[(first_group + (p - offset) / stride) * handle_size + (p - offset) % stride])
    } else {
        None
    }
}

/// The byte at offset `p` of a table in which the raygen entry (if `raygen` is 1), the
/// first `misses` miss entries and the first `hits` hit entries have been written.
pub open spec fn packed_byte(
    l: SbtLayout,
    handles: Seq<u8>,
    p: int,
    raygen: int,
    misses: int,
    hits: int,
) -> u8 {
    let hs = l.handle_size as int;
    let es = l.entry_stride as int;
    match entry_byte(handles, hs, es, l.raygen_offset as int, 0, raygen, p) {
        Some(b) => b,
        None => match entry_byte(handles, hs, es, l.miss_offset as int, 1, misses, p) {
            Some(b) => b,
            None => match entry_byte(
                handles,
                hs,
                es,
                l.hit_offset as int,
                1 + l.num_miss,
                hits,
                p,
            ) {
                Some(b) => b,
                None => 0,
            },
        },
    }
}

/// The byte at offset `p` of the packed table: the handle of the group whose entry
/// covers `p`, and zero in the padding.
pub open spec fn sbt_byte(l: SbtLayout, handles: Seq<u8>, p: int) -> u8 {
    packed_byte(l, handles, p, 1, l.num_miss as int, l.num_hit as int)
}

fn copy_bytes(dst: &mut Vec<u8>, dst_start: usize, src: &[u8], src_start: usize, len: usize)
    requires
        dst_start + len <= old(dst).len(),
        src_start + len <= src.len(),
    ensures
        final(dst).len() == old(dst).len(),
        forall|q: int|
            dst_start <= q < dst_start + len ==> final(dst)@[q] == src@[src_start + q - dst_start],
        forall|q: int|
            0 <= q < old(dst).len() && !(dst_start <= q < dst_start + len) ==> final(dst)@[q]
                == old(dst)@[q],
{
    let mut k: usize = 0;
    while k < len
        invariant
            k <= len,
            dst_start + len <= dst.len(),
            src_start + len <= src.len(),
            dst.len() == old(dst).len(),
            forall|q: int| dst_start <= q < dst_start + k ==> dst@[q] == src@[src_start + q - dst_start],
            forall|q: int|
                0 <= q < old(dst).len() && !(dst_start <= q < dst_start + k) ==> dst@[q]
                    == old(dst)@[q],
        decreases len - k,
    {
        dst.set(dst_start + k, src[src_start + k]);
        k = k + 1;
    }
}

proof fn lemma_entry_position(x: int, stride: int, j: int)
    requires
        stride > 0,
        j * stride <= x < j * stride + stride,
    ensures
        x / stride == j,
        x % stride == x - j * stride,
{
    vstd::arithmetic::div_mod::lemma_fundamental_div_mod_converse(x, stride, j, x - j * stride);
}

proof fn lemma_entry_step(
    handles: Seq<u8>,
    hs: int,
    es: int,
    off: int,
    g: int,
    i: int,
    p: int,
)
    requires
        0 <= hs <= es,
        es > 0,
        i >= 0,
    ensures
        entry_byte(handles, hs, es, off, g, i + 1, p) == (if off + i * es <= p < off + i * es + hs {
            Some(handles[(g + i) * hs + (p - off - i * es)])
        } else {
            entry_byte(handles, hs, es, off, g, i, p)
        }),
{
    vstd::arithmetic::mul::lemma_mul_is_distributive_add(es, i, 1);
    vstd::arithmetic::mul::lemma_mul_is_commutative(es, i);
    vstd::arithmetic::mul::lemma_mul_is_commutative(es, i + 1);
    if off + i * es <= p < off + i * es + es {
        lemma_entry_position(p - off, es, i);
    } else if off <= p < off + i * es {
        vstd::arithmetic::div_mod::lemma_div_pos_is_pos(p - off, es);
        vstd::arithmetic::div_mod::lemma_mod_bound(p - off, es);
    }
}

} // verus!

verus! {

/// Lays the group handles out in a host copy of the table: the raygen handle (group 0)
/// in the raygen entry, the miss handles (groups `1..1+num_miss`) in the miss entries
/// and the hit handles (the groups after them) in the hit entries; padding is zero.
pub fn pack_shader_binding_table(layout: &SbtLayout, handles: &[u8]) -> (sbt: Vec<u8>)
    requires
        sbt_layout_sound(*layout, 1),
        layout.handle_size <= u32::MAX,
        layout.num_miss <= u32::MAX,
        layout.num_hit <= u32::MAX,
        layout.total_size <= usize::MAX,
        1 + layout.num_miss + layout.num_hit <= usize::MAX,
        (1 + layout.num_miss + layout.num_hit) * layout.handle_size <= handles@.len(),
    ensures
        sbt@.len() == layout.total_size,
        forall|p: int| 0 <= p < sbt@.len() ==> sbt@[p] == sbt_byte(*layout, handles@, p),
{
    let l = *layout;
    let hs = l.handle_size as usize;
    let es = l.entry_stride as usize;
    let total = l.total_size as usize;
    let num_miss = l.num_miss as usize;
    let num_hit = l.num_hit as usize;
    let miss_offset = l.miss_offset as usize;
    let hit_offset = l.hit_offset as usize;
    let ghost h = handles@;
    let handles_len = handles.len();

    proof {
        vstd::arithmetic::mul::lemma_mul_inequality(1, 1 + l.num_miss + l.num_hit, hs as int);
        vstd::arithmetic::mul::lemma_mul_nonnegative(l.num_miss as int, es as int);
        vstd::arithmetic::mul::lemma_mul_nonnegative(l.num_hit as int, es as int);
    }

    let mut sbt: Vec<u8> = Vec::new();
    let mut z: usize = 0;
    while z < total
        invariant
            z <= total,
            sbt@.len() == z,
            forall|p: int| 0 <= p < z ==> sbt@[p] == 0u8,
        decreases total - z,
    {
        sbt.push(0u8);
        z = z + 1;
    }

    proof {
        assert forall|p: int| 0 <= p < total implies sbt@[p] == packed_byte(l, h, p, 0, 0, 0) by {
        }
    }

    // Raygen handle (group 0)
    copy_bytes(&mut sbt, 0, handles, 0, hs);
    proof {
        assert forall|p: int| 0 <= p < total implies sbt@[p] == packed_byte(l, h, p, 1, 0, 0) by {
            if es > 0 {
                lemma_entry_step(h, hs as int, es as int, 0, 0, 0, p);
            }
        }
    }

    // Miss handles (groups 1..1+num_miss)
    let mut i: usize = 0;
    while i < num_miss
        invariant
            i <= num_miss,
            l == *layout,
            sbt_layout_sound(l, 1),
            hs == l.handle_size,
            es == l.entry_stride,
            total == l.total_size,
            num_miss == l.num_miss,
            num_hit == l.num_hit,
            miss_offset == l.miss_offset,
            hit_offset == l.hit_offset,
            h == handles@,
            (1 + l.num_miss + l.num_hit) * l.handle_size <= h.len(),
            1 + l.num_miss + l.num_hit <= usize::MAX,
            h.len() == handles_len,
            sbt@.len() == total,
            forall|p: int| 0 <= p < total ==> sbt@[p] == packed_byte(l, h, p, 1, i as int, 0),
        decreases num_miss - i,
    {
        proof {
            vstd::arithmetic::mul::lemma_mul_inequality(i as int + 1, num_miss as int, es as int);
            vstd::arithmetic::mul::lemma_mul_is_distributive_add(es as int, i as int, 1);
            vstd::arithmetic::mul::lemma_mul_is_commutative(es as int, i as int);
            vstd::arithmetic::mul::lemma_mul_is_commutative(es as int, i as int + 1);
            vstd::arithmetic::mul::lemma_mul_inequality(
                2 + i as int,
                1 + l.num_miss + l.num_hit,
                hs as int,
            );
            vstd::arithmetic::mul::lemma_mul_is_distributive_add(hs as int, 1 + i as int, 1);
            vstd::arithmetic::mul::lemma_mul_is_commutative(hs as int, 1 + i as int);
            vstd::arithmetic::mul::lemma_mul_is_commutative(hs as int, 2 + i as int);
        }
        assert((1 + i as int) * (hs as int) <= h.len());
        let src_start = (1 + i) * hs;
        let dst_start = miss_offset + i * es;
        copy_bytes(&mut sbt, dst_start, handles, src_start, hs);
        proof {
            assert forall|p: int| 0 <= p < total implies sbt@[p] == packed_byte(
                l,
                h,
                p,
                1,
                i + 1,
                0,
            ) by {
                if es > 0 {
                    lemma_entry_step(h, hs as int, es as int, miss_offset as int, 1, i as int, p);
                }
            }
        }
        i = i + 1;
    }

    // Hit handles (groups 1+num_miss .. 1+num_miss+num_hit)
    let mut j: usize = 0;
    while j < num_hit
        invariant
            j <= num_hit,
            l == *layout,
            sbt_layout_sound(l, 1),
            hs == l.handle_size,
            es == l.entry_stride,
            total == l.total_size,
            num_miss == l.num_miss,
            num_hit == l.num_hit,
            miss_offset == l.miss_offset,
            hit_offset == l.hit_offset,
            h == handles@,
            (1 + l.num_miss + l.num_hit) * l.handle_size <= h.len(),
            1 + l.num_miss + l.num_hit <= usize::MAX,
            h.len() == handles_len,
            sbt@.len() == total,
            forall|p: int|
                0 <= p < total ==> sbt@[p] == packed_byte(l, h, p, 1, num_miss as int, j as int),
        decreases num_hit - j,
    {
        proof {
            vstd::arithmetic::mul::lemma_mul_inequality(j as int + 1, num_hit as int, es as int);
            vstd::arithmetic::mul::lemma_mul_is_distributive_add(es as int, j as int, 1);
            vstd::arithmetic::mul::lemma_mul_is_commutative(es as int, j as int);
            vstd::arithmetic::mul::lemma_mul_is_commutative(es as int, j as int + 1);
            vstd::arithmetic::mul::lemma_mul_inequality(
                2 + num_miss as int + j as int,
                1 + l.num_miss + l.num_hit,
                hs as int,
            );
            vstd::arithmetic::mul::lemma_mul_is_distributive_add(
                hs as int,
                1 + num_miss as int + j as int,
                1,
            );
            vstd::arithmetic::mul::lemma_mul_is_commutative(hs as int, 1 + num_miss as int + j as int);
            vstd::arithmetic::mul::lemma_mul_is_commutative(hs as int, 2 + num_miss as int + j as int);
        }
        assert((1 + num_miss as int + j as int) * (hs as int) <= h.len());
        let src_start = (1 + num_miss + j) * hs;
        let dst_start = hit_offset + j * es;
        copy_bytes(&mut sbt, dst_start, handles, src_start, hs);
        proof {
            assert forall|p: int| 0 <= p < total implies sbt@[p] == packed_byte(
                l,
                h,
                p,
                1,
                num_miss as int,
                j + 1,
            ) by {
                if es > 0 {
                    lemma_entry_step(
                        h,
                        hs as int,
                        es as int,
                        hit_offset as int,
                        1 + num_miss as int,
                        j as int,
                        p,
                    );
                }
            }
        }
        j = j + 1;
    }
    sbt
}

/// The device-address regions of a table uploaded at `base`.
pub fn sbt_regions(layout: &SbtLayout, base: u64) -> (r: SbtRegions)
    requires
        base + layout.hit_offset <= u64::MAX,
        layout.raygen_offset <= layout.miss_offset <= layout.hit_offset,
    ensures
        r.raygen_region == (StridedDeviceAddressRegion {
            device_address: (base + layout.raygen_offset) as u64,
            stride: layout.raygen_size,
            size: layout.raygen_size,
        }),
        r.miss_region == (StridedDeviceAddressRegion {
            device_address: (base + layout.miss_offset) as u64,
            stride: layout.entry_stride,
            size: layout.miss_size,
        }),
        r.hit_region == (StridedDeviceAddressRegion {
            device_address: (base + layout.hit_offset) as u64,
            stride: layout.entry_stride,
            size: layout.hit_size,
        }),
        r.callable_region == (StridedDeviceAddressRegion { device_address: 0, stride: 0, size: 0 }),
{
    SbtRegions {
        raygen_region: StridedDeviceAddressRegion {
            device_address: base + layout.raygen_offset,
            stride: layout.raygen_size,
            size: layout.raygen_size,
        },
        miss_region: StridedDeviceAddressRegion {
            device_address: base + layout.miss_offset,
            stride: layout.entry_stride,
            size: layout.miss_size,
        },
        hit_region: StridedDeviceAddressRegion {
            device_address: base + layout.hit_offset,
            stride: layout.entry_stride,
            size: layout.hit_size,
        },
        callable_region: StridedDeviceAddressRegion { device_address: 0, stride: 0, size: 0 },
    }
}

} // verus!

verus! {

proof fn lemma_entry_hit(handles: Seq<u8>, hs: int, es: int, off: int, g: int, count: int, i: int, k: int)
    requires
        0 <= k < hs <= es,
        0 <= i < count,
    ensures
        entry_byte(handles, hs, es, off, g, count, off + i * es + k) == Some(
            handles[(g + i) * hs + k],
        ),
{
    lemma_entry_position(i * es + k, es, i);
    vstd::arithmetic::mul::lemma_mul_inequality(i + 1, count, es);
    vstd::arithmetic::mul::lemma_mul_is_distributive_add(es, i, 1);
    vstd::arithmetic::mul::lemma_mul_is_commutative(es, i);
    vstd::arithmetic::mul::lemma_mul_is_commutative(es, i + 1);
}

/// Byte `k` of entry `i` of the region at `region_offset`.
pub open spec fn sbt_entry_byte(l: SbtLayout, handles: Seq<u8>, region_offset: int, i: int, k: int) -> u8 {
    sbt_byte(l, handles, region_offset + i * l.entry_stride + k)
}

/// The packed table follows the group convention: group 0 in the raygen entry, group
/// `1 + i` in miss entry `i`, group `1 + num_miss + i` in hit entry `i`; byte `k` of a
/// handle sits at byte `k` of its entry.
pub proof fn lemma_sbt_entries_hold_group_handles(l: SbtLayout, handles: Seq<u8>)
    requires
        sbt_layout_sound(l, 1),
    ensures
        forall|k: int|
            0 <= k < l.handle_size ==> #[trigger] sbt_byte(l, handles, k) == handles[k],
        forall|i: int, k: int|
            0 <= i < l.num_miss && 0 <= k < l.handle_size ==> #[trigger] sbt_entry_byte(
                l,
                handles,
                l.miss_offset as int,
                i,
                k,
            ) == handles[(1 + i) * l.handle_size + k],
        forall|i: int, k: int|
            0 <= i < l.num_hit && 0 <= k < l.handle_size ==> #[trigger] sbt_entry_byte(
                l,
                handles,
                l.hit_offset as int,
                i,
                k,
            ) == handles[(1 + l.num_miss + i) * l.handle_size + k],
{
    let hs = l.handle_size as int;
    let es = l.entry_stride as int;
    assert forall|k: int| 0 <= k < l.handle_size implies #[trigger] sbt_byte(l, handles, k)
        == handles[k] by {
        lemma_entry_hit(handles, hs, es, 0, 0, 1, 0, k);
    }
    assert forall|i: int, k: int| 0 <= i < l.num_miss && 0 <= k < l.handle_size implies #[trigger] sbt_entry_byte(
        l,
        handles,
        l.miss_offset as int,
        i,
        k,
    ) == handles[(1 + i) * l.handle_size + k] by {
        lemma_entry_hit(handles, hs, es, l.miss_offset as int, 1, l.num_miss as int, i, k);
        vstd::arithmetic::mul::lemma_mul_nonnegative(i, es);
    }
    assert forall|i: int, k: int| 0 <= i < l.num_hit && 0 <= k < l.handle_size implies #[trigger] sbt_entry_byte(
        l,
        handles,
        l.hit_offset as int,
        i,
        k,
    ) == handles[(1 + l.num_miss + i) * l.handle_size + k] by {
        lemma_entry_hit(
            handles,
            hs,
            es,
            l.hit_offset as int,
            1 + l.num_miss,
            l.num_hit as int,
            i,
            k,
        );
        vstd::arithmetic::mul::lemma_mul_nonnegative(i, es);
    }
}

} // verus!
