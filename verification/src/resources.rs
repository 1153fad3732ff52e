//! Bookkeeping of the scene resources that live in GPU memory: the append-only
//! element buffers shared by all meshes, the CPU mirror of the material buffer, the
//! handle tables of textures and samplers, and the meshes uploaded so far.

use vstd::prelude::*;
use crate::passes::PbrBlendMode;

verus! {

pub type TextureHandle = u64;
pub type SamplerHandle = u64;
pub type MeshHandle = u64;
pub type MaterialHandle = u64;

pub const INVALID_RESOURCE_HANDLE: u64 = 0xFFFF_FFFF_FFFF_FFFF;

pub const DEFAULT_SAMPLER_HANDLE: u64 = 0;

pub const MAX_TEXTURES: usize = 1024;
pub const MAX_SAMPLERS: usize = 1024;
pub const MAX_MESHES: usize = 4096;
pub const MAX_MATERIALS: usize = 4096;
pub const MAX_DRAW_ITEMS: usize = 16384;
pub const MAX_INDIRECT_DRAWS: usize = 131072;
pub const MAX_VERTICES: usize = 16_000_000;
pub const MAX_INDICES: usize = 32_000_000;

pub const META_BUFFER_BINDING_VERTEX: u32 = 0;
pub const META_BUFFER_BINDING_MATERIAL: u32 = 1;
pub const META_BUFFER_BINDING_TEXTURE: u32 = 2;
pub const META_BUFFER_BINDING_DRAW_ITEMS: u32 = 3;
pub const META_BUFFER_BINDING_SAMPLER: u32 = 4;
pub const META_BUFFER_BINDING_SKYBOX: u32 = 5;
pub const META_BUFFER_BINDING_INDEX: u32 = 6;
pub const META_BUFFER_BINDING_TLAS: u32 = 7;

/// How often the contents of a GPU resource change: `PerFrame` resources have one
/// copy per frame in flight, `Static` ones a single copy.
#[derive(Debug, Clone, Copy, PartialEq, Eq, Structural)]
pub enum UpdateFrequency {
    Static,
    PerFrame,
}

/// How many copies of a resource are allocated.
pub fn replica_count(update_frequency: UpdateFrequency, frames_in_flight: usize) -> (r: usize)
    ensures
        r == (match update_frequency {
            UpdateFrequency::Static => 1,
            UpdateFrequency::PerFrame => frames_in_flight as int,
        }),
{
    match update_frequency {
        UpdateFrequency::Static => 1,
        UpdateFrequency::PerFrame => frames_in_flight,
    }
}

/// Which copy of a resource with `replicas` copies the frame in slot `frame_index` uses:
/// the single copy, or the frame's own.
pub fn replica_index(replicas: usize, frame_index: usize) -> (r: usize)
    ensures
        r == (if replicas == 1 { 0 } else { frame_index }),
{
    if replicas == 1 {
        0
    } else {
        frame_index
    }
}

/// Every frame in flight uses one of the copies.
pub proof fn lemma_replica_in_range(update_frequency: UpdateFrequency, frames_in_flight: usize, frame_index: usize)
    requires
        frames_in_flight > 0,
        frame_index < frames_in_flight,
    ensures
        ({
            let n = match update_frequency {
                UpdateFrequency::Static => 1int,
                UpdateFrequency::PerFrame => frames_in_flight as int,
            };
            (if n == 1 { 0 } else { frame_index as int }) < n
        }),
{
}

/// Why an append to a GPU buffer or a handle table was refused.
#[derive(Debug, Clone, Copy, PartialEq, Eq, Structural)]
pub enum ResourceError {
    /// The buffer cannot hold the appended elements ("GpuBuffer overflow").
    BufferOverflow,
    /// The handle table is full.
    TooManySamplers,
    TooManyTextures,
    /// A texture has no texel: its width or height is zero.
    InvalidTextureExtent,
}

/// A buffer-to-buffer copy (`VkBufferCopy`).
#[derive(Debug, Clone, Copy, PartialEq, Eq, Structural)]
pub struct BufferCopy {
    pub src_offset: u64,
    pub dst_offset: u64,
    pub size: u64,
}

/// An append-only array of `max_elems` elements of `elem_size` bytes in GPU memory;
/// the first `len` elements are in use.
pub struct GpuBuffer {
    num_elems: u32,
    max_elems: usize,
    elem_size: usize,
    update_frequency: UpdateFrequency,
}

impl GpuBuffer {
    pub closed spec fn spec_len(&self) -> nat {
        self.num_elems as nat
    }

    pub closed spec fn spec_max_elems(&self) -> nat {
        self.max_elems as nat
    }

    pub closed spec fn spec_elem_size(&self) -> nat {
        self.elem_size as nat
    }

    pub closed spec fn spec_update_frequency(&self) -> UpdateFrequency {
        self.update_frequency
    }

    /// The elements in use fit in the buffer, and its byte size is addressable.
    pub closed spec fn wf(&self) -> bool {
        &&& self.num_elems <= self.max_elems
        &&& self.max_elems * self.elem_size <= usize::MAX
    }

    /// An empty buffer for `num_elems` elements of `elem_size` bytes.
    pub fn new(num_elems: usize, elem_size: usize, update_frequency: UpdateFrequency) -> (r: GpuBuffer)
        requires
            num_elems * elem_size <= usize::MAX,
        ensures
            r.wf(),
            r.spec_len() == 0,
            r.spec_max_elems() == num_elems,
            r.spec_elem_size() == elem_size,
            r.spec_update_frequency() == update_frequency,
    {
        GpuBuffer { num_elems: 0, max_elems: num_elems, elem_size, update_frequency }
    }

    /// The number of bytes to allocate for the buffer.
    pub fn capacity_bytes(&self) -> (r: u64)
        requires
            self.wf(),
        ensures
            r == self.spec_max_elems() * self.spec_elem_size(),
    {
        (self.max_elems * self.elem_size) as u64
    }

    /// The number of elements in use.
    pub fn len(&self) -> (r: u32)
        ensures
            r == self.spec_len(),
    {
        self.num_elems
    }

    /// Where `count` more elements would go: the index of the first (the current length
    /// when there are none), or an overflow when they do not fit. Nothing is reserved;
    /// a caller uploads to these slots and then calls `add`.
    pub fn placement(&self, count: usize) -> (r: Result<u32, ResourceError>)
        requires
            self.wf(),
            self.spec_len() + count <= self.spec_max_elems() ==> self.spec_len() + count <= u32::MAX,
        ensures
            count == 0 ==> r == Ok::<u32, ResourceError>(self.spec_len() as u32),
            count > 0 && self.spec_len() + count > self.spec_max_elems() ==> r == Err::<u32, ResourceError>(
                ResourceError::BufferOverflow,
            ),
            count > 0 && self.spec_len() + count <= self.spec_max_elems() ==> r == Ok::<u32, ResourceError>(
                self.spec_len() as u32,
            ),
    {
        if count == 0 {
            return Ok(self.num_elems);
        }
        if count > self.max_elems - self.num_elems as usize {
            return Err(ResourceError::BufferOverflow);
        }
        Ok(self.num_elems)
    }

    /// Counts the next `count` elements as used (once their upload succeeded) and returns
    /// the index of the first; appending nothing counts nothing and returns the current
    /// length. Fails, counting nothing, when the elements do not fit.
    pub fn add(&mut self, count: usize) -> (r: Result<u32, ResourceError>)
        requires
            old(self).wf(),
            old(self).spec_len() + count <= old(self).spec_max_elems() ==> old(self).spec_len() + count
                <= u32::MAX,
        ensures
            final(self).wf(),
            final(self).spec_max_elems() == old(self).spec_max_elems(),
            final(self).spec_elem_size() == old(self).spec_elem_size(),
            final(self).spec_update_frequency() == old(self).spec_update_frequency(),
            count == 0 ==> r == Ok::<u32, ResourceError>(old(self).spec_len() as u32)
                && final(self).spec_len() == old(self).spec_len(),
            count > 0 && old(self).spec_len() + count > old(self).spec_max_elems() ==> r == Err::<
                u32,
                ResourceError,
            >(ResourceError::BufferOverflow) && final(self).spec_len() == old(self).spec_len(),
            count > 0 && old(self).spec_len() + count <= old(self).spec_max_elems() ==> r == Ok::<
                u32,
                ResourceError,
            >(old(self).spec_len() as u32) && final(self).spec_len() == old(self).spec_len() + count,
    {
        if count == 0 {
            // Avoid creating 0-sized staging buffers (invalid in Vulkan).
            return Ok(self.num_elems);
        }
        if count > self.max_elems - self.num_elems as usize {
            return Err(ResourceError::BufferOverflow);
        }
        let res = self.num_elems;
        self.num_elems = self.num_elems + count as u32;
        Ok(res)
    }

    /// The copy that uploads `count` staged elements into the slots reserved from `first`.
    pub fn copy_region(&self, first: u32, count: usize) -> (r: BufferCopy)
        requires
            self.wf(),
            first + count <= self.spec_max_elems(),
        ensures
            r.src_offset == 0,
            r.dst_offset == first * self.spec_elem_size(),
            r.size == count * self.spec_elem_size(),
    {
        proof {
            vstd::arithmetic::mul::lemma_mul_inequality(first as int, self.max_elems as int, self.elem_size as int);
            vstd::arithmetic::mul::lemma_mul_inequality(count as int, self.max_elems as int, self.elem_size as int);
        }
        BufferCopy {
            src_offset: 0,
            dst_offset: (first as u64) * (self.elem_size as u64),
            size: (count as u64) * (self.elem_size as u64),
        }
    }

    /// Forgets all elements; only per-frame buffers are rewritten this way.
    pub fn clear(&mut self)
        requires
            old(self).wf(),
            old(self).spec_update_frequency() == UpdateFrequency::PerFrame,
        ensures
            final(self).wf(),
            final(self).spec_len() == 0,
            final(self).spec_max_elems() == old(self).spec_max_elems(),
            final(self).spec_elem_size() == old(self).spec_elem_size(),
            final(self).spec_update_frequency() == old(self).spec_update_frequency(),
    {
        self.num_elems = 0;
    }
}

/// A GPU buffer with a CPU copy of its elements, so that they can be read back.
pub struct MirroredBuffer<T> {
    buffer: GpuBuffer,
    data: Vec<T>,
}

impl<T: Copy> MirroredBuffer<T> {
    /// The elements held, in order; the GPU buffer holds as many (its capacity and
    /// element size are `spec_capacity` and `spec_elem_size`).
    pub closed spec fn view(&self) -> Seq<T> {
        self.data@
    }

    pub closed spec fn spec_capacity(&self) -> nat {
        self.buffer.spec_max_elems()
    }

    pub closed spec fn spec_elem_size(&self) -> nat {
        self.buffer.spec_elem_size()
    }

    /// The copy holds exactly the elements in use on the GPU.
    pub closed spec fn wf(&self) -> bool {
        &&& self.buffer.wf()
        &&& self.data@.len() == self.buffer.spec_len()
        &&& self.buffer.spec_max_elems() <= u32::MAX
    }

    /// An empty buffer for `num_elems` elements of `elem_size` bytes.
    pub fn new(num_elems: usize, elem_size: usize) -> (r: MirroredBuffer<T>)
        requires
            num_elems * elem_size <= usize::MAX,
            num_elems <= u32::MAX,
        ensures
            r.wf(),
            r@ == Seq::<T>::empty(),
            r.spec_capacity() == num_elems,
            r.spec_elem_size() == elem_size,
    {
        MirroredBuffer { buffer: GpuBuffer::new(num_elems, elem_size, UpdateFrequency::Static), data: Vec::new() }
    }

    /// Appends `val` and returns its index; fails, changing nothing, when the buffer is full.
    pub fn add(&mut self, val: T) -> (r: Result<u64, ResourceError>)
        requires
            old(self).wf(),
        ensures
            final(self).wf(),
            final(self).spec_capacity() == old(self).spec_capacity(),
            final(self).spec_elem_size() == old(self).spec_elem_size(),
            old(self)@.len() < old(self).spec_capacity() ==> r == Ok::<u64, ResourceError>(
                old(self)@.len() as u64,
            ) && final(self)@ == old(self)@.push(val),
            old(self)@.len() >= old(self).spec_capacity() ==> r == Err::<u64, ResourceError>(
                ResourceError::BufferOverflow,
            ) && final(self)@ == old(self)@,
    {
        let id = self.data.len();
        match self.buffer.add(1) {
            Ok(_) => {},
            Err(e) => {
                return Err(e);
            },
        }
        self.data.push(val);
        Ok(id as u64)
    }

    /// The number of elements.
    pub fn len(&self) -> (r: usize)
        ensures
            r == self@.len(),
    {
        self.data.len()
    }

    /// Element `index`.
    pub fn get(&self, index: usize) -> (r: T)
        requires
            index < self@.len(),
        ensures
            r == self@[index as int],
    {
        self.data[index]
    }

    /// The number of bytes to allocate for the buffer.
    pub fn capacity_bytes(&self) -> (r: u64)
        requires
            self.wf(),
        ensures
            r == self.spec_capacity() * self.spec_elem_size(),
    {
        self.buffer.capacity_bytes()
    }
}

/// What an append to a mirrored buffer returns is what reading it back gives, and the
/// elements before it are unchanged.
pub proof fn lemma_mirrored_read_after_write<T>(before: Seq<T>, after: Seq<T>, val: T, id: u64)
    requires
        after == before.push(val),
        id == before.len(),
    ensures
        after[id as int] == val,
        forall|i: int| 0 <= i < before.len() ==> after[i] == before[i],
{
}

} // verus!

verus! {

/// An uploaded mesh: where its vertices and indices start in the shared buffers, how
/// many indices it has, and the device address of its bottom-level acceleration
/// structure.
#[derive(Debug, Clone, Copy, PartialEq, Eq, Structural)]
pub struct UploadedMesh {
    pub vertex_offset: i32,
    pub index_offset: u32,
    pub index_count: u32,
    pub blas_address: u64,
}

/// A mesh as the shaders see it.
#[derive(Debug, Clone, Copy, PartialEq, Eq, Structural)]
pub struct GpuMesh {
    pub vertex_offset: u64,
    pub index_offset: u64,
    pub index_count: u32,
}

/// Where a new mesh's data goes in the shared buffers.
#[derive(Debug, Clone, Copy, PartialEq, Eq, Structural)]
pub struct MeshUpload {
    pub vertex_offset: i32,
    pub index_offset: u32,
    pub vertex_count: u32,
    pub index_count: u32,
    pub triangle_count: u32,
}

/// The inputs of the BLAS build of a mesh: device addresses of its first vertex and
/// first index, the vertex stride, the highest vertex index and the triangle count.
#[derive(Debug, Clone, Copy, PartialEq, Eq, Structural)]
pub struct BlasGeometry {
    pub vertex_address: u64,
    pub index_address: u64,
    pub vertex_stride: u64,
    pub max_vertex: u32,
    pub primitive_count: u32,
}

/// The texture and sampler handles of a skybox's four images, as the shaders read them.
#[derive(Debug, Clone, Copy, PartialEq, Eq, Structural)]
pub struct SkyboxBindings {
    pub tex: u32,
    pub sampler: u32,
    pub irradiance_tex: u32,
    pub irradiance_sampler: u32,
    pub prefiltered_tex: u32,
    pub prefiltered_sampler: u32,
    pub brdf_lut_tex: u32,
    pub brdf_lut_sampler: u32,
}

/// Whether a texture of extent `extent` is refused when the table holds `count`.
pub open spec fn texture_refused(count: int, extent: (u32, u32)) -> bool {
    count >= MAX_TEXTURES || extent.0 == 0 || extent.1 == 0
}

/// Why a texture of extent `extent` is refused when the table holds `count`.
pub open spec fn texture_refusal(count: int, extent: (u32, u32)) -> ResourceError {
    if count >= MAX_TEXTURES {
        ResourceError::TooManyTextures
    } else {
        ResourceError::InvalidTextureExtent
    }
}

/// How many of the four skybox images (sky, irradiance, prefiltered, BRDF lookup
/// table, added in this order) are added before the first refused one, when the table
/// holds `count`: 4 when none is refused.
pub open spec fn skybox_textures_added(
    count: int,
    sky: (u32, u32),
    irradiance: (u32, u32),
    prefiltered: (u32, u32),
    brdf_lut: (u32, u32),
) -> int {
    if texture_refused(count, sky) {
        0
    } else if texture_refused(count + 1, irradiance) {
        1
    } else if texture_refused(count + 2, prefiltered) {
        2
    } else if texture_refused(count + 3, brdf_lut) {
        3
    } else {
        4
    }
}

/// One instance of a TLAS: the BLAS it places, the draw item whose transform places it,
/// and its packed custom index (the draw item index) and visibility mask.
#[derive(Debug, Clone, Copy, PartialEq, Eq, Structural)]
pub struct TlasInstanceRef {
    pub blas_address: u64,
    pub draw_item_index: u32,
    pub instance_custom_index_and_mask: u32,
}

/// The element sizes of the shared buffers' element types.
#[derive(Debug, Clone, Copy, PartialEq, Eq, Structural)]
pub struct ResourceElementSizes {
    pub vertex: usize,
    pub draw_item: usize,
    pub indirect_command: usize,
    pub material: usize,
}

/// The value of `x` clamped below at zero.
pub open spec fn nonneg(x: i32) -> int {
    if x < 0 { 0 } else { x as int }
}

/// `max(vertex_offset, 0)` in the low 32 bits and `index_offset` in the high 32 bits.
pub open spec fn packed_mesh_offsets(m: UploadedMesh) -> int {
    nonneg(m.vertex_offset) + m.index_offset * 0x1_0000_0000
}

/// bits [23:0] = custom index (truncated), bits [31:24] = mask.
pub open spec fn custom_index_and_mask(index: u32, mask: u8) -> int {
    index % 0x100_0000 + mask * 0x100_0000
}

proof fn lemma_pack_u32_pair(lo: u32, hi: u32)
    by (bit_vector)
    ensures
        (lo as u64) | ((hi as u64) << 32u64) == lo + hi * 0x1_0000_0000,
{
}

proof fn lemma_pack_index_mask(index: u32, mask: u8)
    by (bit_vector)
    ensures
        (index & 0x00FF_FFFFu32) | ((mask as u32) << 24u32) == index % 0x100_0000 + mask * 0x100_0000,
{
}

/// Packs an instance custom index (its low 24 bits) and an 8-bit visibility mask as
/// `VkAccelerationStructureInstanceKHR` stores them.
pub fn pack_instance_custom_index_and_mask(instance_custom_index: u32, mask: u8) -> (r: u32)
    ensures
        r == custom_index_and_mask(instance_custom_index, mask),
{
    proof {
        lemma_pack_index_mask(instance_custom_index, mask);
    }
    (instance_custom_index & 0x00FF_FFFFu32) | ((mask as u32) << 24u32)
}

/// `x` rounded up to a multiple of 256 (scratch buffers of acceleration structure
/// builds are allocated so).
pub fn align_up_256(value: u64) -> (r: u64)
    requires
        value + 255 <= u64::MAX,
    ensures
        r == crate::sbt::align_up_spec(value as int, 256),
        r % 256 == 0,
        value <= r < value + 256,
{
    proof {
        vstd::arithmetic::power2::lemma2_to64();
        assert(crate::sbt::is_power_of_two(256u64)) by {
            assert(vstd::arithmetic::power2::pow2(8) == 256);
        }
    }
    crate::sbt::align_up_u64(value, 256)
}

/// The number of bytes of instance data for `count` TLAS instances (64 bytes each);
/// building a TLAS from no instance is refused.
pub fn tlas_instance_data_size(count: usize) -> (r: Option<u64>)
    requires
        64 * count <= usize::MAX,
    ensures
        count == 0 <==> r is None,
        count > 0 ==> r == Some((64 * count) as u64),
{
    if count == 0 {
        None
    } else {
        Some((64 * count) as u64)
    }
}

/// The CPU-side state of the resource manager: its shared element buffers, material
/// mirror, handle tables and uploaded meshes; `M` is the material record.
pub struct ResourceManager<M> {
    vertex_buffer: GpuBuffer,
    index_buffer: GpuBuffer,
    items_buffer: GpuBuffer,
    global_indirect_buffer: GpuBuffer,
    material_buffer: MirroredBuffer<M>,
    num_samplers: usize,
    num_textures: usize,
    uploaded_meshes: Vec<UploadedMesh>,
    frames_in_flight: usize,
    tlas_slots: Vec<Option<Vec<TlasInstanceRef>>>,
}

impl<M: Copy> ResourceManager<M> {
    pub closed spec fn meshes(&self) -> Seq<UploadedMesh> {
        self.uploaded_meshes@
    }

    pub closed spec fn materials(&self) -> Seq<M> {
        self.material_buffer@
    }

    pub closed spec fn sampler_count(&self) -> nat {
        self.num_samplers as nat
    }

    pub closed spec fn texture_count(&self) -> nat {
        self.num_textures as nat
    }

    pub closed spec fn vertices_used(&self) -> nat {
        self.vertex_buffer.spec_len()
    }

    pub closed spec fn indices_used(&self) -> nat {
        self.index_buffer.spec_len()
    }

    pub closed spec fn draw_items_used(&self) -> nat {
        self.items_buffer.spec_len()
    }

    pub closed spec fn indirect_draws_used(&self) -> nat {
        self.global_indirect_buffer.spec_len()
    }

    pub closed spec fn spec_frames_in_flight(&self) -> nat {
        self.frames_in_flight as nat
    }

    /// The instances each frame slot's TLAS was last built from, if it was built.
    pub closed spec fn tlas_slots(&self) -> Seq<Option<Seq<TlasInstanceRef>>> {
        self.tlas_slots@.map_values(
            |o: Option<Vec<TlasInstanceRef>>|
                match o {
                    Some(v) => Some(v@),
                    None => None,
                },
        )
    }

    /// The buffers are consistent, the handle tables within their limits, and the shared
    /// buffers sized as the renderer sizes them.
    pub closed spec fn wf(&self) -> bool {
        &&& self.vertex_buffer.wf()
        &&& self.index_buffer.wf()
        &&& self.items_buffer.wf()
        &&& self.global_indirect_buffer.wf()
        &&& self.material_buffer.wf()
        &&& self.vertex_buffer.spec_max_elems() == MAX_VERTICES
        &&& self.index_buffer.spec_max_elems() == MAX_INDICES
        &&& self.index_buffer.spec_elem_size() == 4
        &&& self.items_buffer.spec_max_elems() == MAX_DRAW_ITEMS
        &&& self.items_buffer.spec_update_frequency() == UpdateFrequency::PerFrame
        &&& self.global_indirect_buffer.spec_max_elems() == MAX_INDIRECT_DRAWS
        &&& self.global_indirect_buffer.spec_update_frequency() == UpdateFrequency::PerFrame
        &&& self.material_buffer.spec_capacity() == MAX_MATERIALS
        &&& self.num_samplers <= MAX_SAMPLERS
        &&& self.num_textures <= MAX_TEXTURES
        &&& self.tlas_slots@.len() == self.frames_in_flight
    }

    /// A manager with empty buffers, the default sampler at handle 0, and no texture
    /// or mesh.
    pub fn new(frames_in_flight: usize, sizes: ResourceElementSizes) -> (r: ResourceManager<M>)
        requires
            MAX_VERTICES * sizes.vertex <= usize::MAX,
            MAX_DRAW_ITEMS * sizes.draw_item <= usize::MAX,
            MAX_INDIRECT_DRAWS * sizes.indirect_command <= usize::MAX,
            MAX_MATERIALS * sizes.material <= usize::MAX,
        ensures
            r.wf(),
            r.meshes() == Seq::<UploadedMesh>::empty(),
            r.materials() == Seq::<M>::empty(),
            r.sampler_count() == 1,
            r.texture_count() == 0,
            r.vertices_used() == 0,
            r.indices_used() == 0,
            r.draw_items_used() == 0,
            r.indirect_draws_used() == 0,
            r.spec_frames_in_flight() == frames_in_flight,
            r.tlas_slots().len() == frames_in_flight,
            forall|i: int| 0 <= i < frames_in_flight ==> #[trigger] r.tlas_slots()[i] is None,
    {
        let mut tlas_slots: Vec<Option<Vec<TlasInstanceRef>>> = Vec::new();
        let mut i: usize = 0;
        while i < frames_in_flight
            invariant
                i <= frames_in_flight,
                tlas_slots@.len() == i,
                forall|k: int| 0 <= k < i ==> #[trigger] tlas_slots@[k] is None,
            decreases frames_in_flight - i,
        {
            tlas_slots.push(None);
            i = i + 1;
        }
        ResourceManager {
            vertex_buffer: GpuBuffer::new(MAX_VERTICES, sizes.vertex, UpdateFrequency::Static),
            index_buffer: GpuBuffer::new(MAX_INDICES, 4, UpdateFrequency::Static),
            items_buffer: GpuBuffer::new(MAX_DRAW_ITEMS, sizes.draw_item, UpdateFrequency::PerFrame),
            global_indirect_buffer: GpuBuffer::new(
                MAX_INDIRECT_DRAWS,
                sizes.indirect_command,
                UpdateFrequency::PerFrame,
            ),
            material_buffer: MirroredBuffer::new(MAX_MATERIALS, sizes.material),
            // The default sampler sits at index 0.
            num_samplers: 1,
            num_textures: 0,
            uploaded_meshes: Vec::new(),
            frames_in_flight,
            tlas_slots,
        }
    }

    /// One TLAS slot per frame in flight.
    pub fn tlas_slot_count(&self) -> (r: usize)
        ensures
            r == self.spec_frames_in_flight(),
    {
        self.frames_in_flight
    }

    /// Takes the next sampler handle, unless the table is full.
    pub fn add_sampler(&mut self) -> (r: Result<SamplerHandle, ResourceError>)
        requires
            old(self).wf(),
        ensures
            final(self).wf(),
            old(self).sampler_count() >= MAX_SAMPLERS ==> r == Err::<u64, ResourceError>(
                ResourceError::TooManySamplers,
            ) && final(self).sampler_count() == old(self).sampler_count(),
            old(self).sampler_count() < MAX_SAMPLERS ==> r == Ok::<u64, ResourceError>(
                old(self).sampler_count() as u64,
            ) && final(self).sampler_count() == old(self).sampler_count() + 1,
            final(self).texture_count() == old(self).texture_count(),
            final(self).meshes() == old(self).meshes(),
            final(self).materials() == old(self).materials(),
    {
        if self.num_samplers >= MAX_SAMPLERS {
            return Err(ResourceError::TooManySamplers);
        }
        let handle = self.num_samplers as u64;
        self.num_samplers = self.num_samplers + 1;
        Ok(handle)
    }

    /// Whether the texture table is full (checked before an upload starts).
    pub fn texture_table_full(&self) -> (r: bool)
        ensures
            r == (self.texture_count() >= MAX_TEXTURES),
    {
        self.num_textures >= MAX_TEXTURES
    }

    /// The handle a texture of this extent would get, or why it is refused (a full
    /// table first, then an empty extent); nothing is taken. A caller uploads the
    /// texture and then calls `add_texture`, so a failed upload takes no handle.
    pub fn texture_slot(&self, width: u32, height: u32) -> (r: Result<TextureHandle, ResourceError>)
        requires
            self.wf(),
        ensures
            self.texture_count() >= MAX_TEXTURES ==> r == Err::<u64, ResourceError>(ResourceError::TooManyTextures),
            self.texture_count() < MAX_TEXTURES && (width == 0 || height == 0) ==> r == Err::<u64, ResourceError>(
                ResourceError::InvalidTextureExtent,
            ),
            self.texture_count() < MAX_TEXTURES && width != 0 && height != 0 ==> r == Ok::<u64, ResourceError>(
                self.texture_count() as u64,
            ),
    {
        if self.num_textures >= MAX_TEXTURES {
            return Err(ResourceError::TooManyTextures);
        }
        if width == 0 || height == 0 {
            return Err(ResourceError::InvalidTextureExtent);
        }
        Ok(self.num_textures as u64)
    }

    /// Takes the next texture handle (once the texture was uploaded), unless the table is
    /// full or the extent empty.
    pub fn add_texture(&mut self, width: u32, height: u32) -> (r: Result<TextureHandle, ResourceError>)
        requires
            old(self).wf(),
        ensures
            final(self).wf(),
            old(self).texture_count() >= MAX_TEXTURES ==> r == Err::<u64, ResourceError>(
                ResourceError::TooManyTextures,
            ) && final(self).texture_count() == old(self).texture_count(),
            old(self).texture_count() < MAX_TEXTURES && (width == 0 || height == 0) ==> r == Err::<
                u64,
                ResourceError,
            >(ResourceError::InvalidTextureExtent) && final(self).texture_count() == old(self).texture_count(),
            old(self).texture_count() < MAX_TEXTURES && width != 0 && height != 0 ==> r == Ok::<u64, ResourceError>(
                old(self).texture_count() as u64,
            ) && final(self).texture_count() == old(self).texture_count() + 1,
            final(self).sampler_count() == old(self).sampler_count(),
            final(self).meshes() == old(self).meshes(),
            final(self).materials() == old(self).materials(),
            final(self).tlas_slots() == old(self).tlas_slots(),
    {
        if self.num_textures >= MAX_TEXTURES {
            return Err(ResourceError::TooManyTextures);
        }
        if width == 0 || height == 0 {
            return Err(ResourceError::InvalidTextureExtent);
        }
        let handle = self.num_textures as u64;
        self.num_textures = self.num_textures + 1;
        Ok(handle)
    }

    /// Adds the skybox's four images as textures, sky first, then irradiance, prefiltered
    /// and BRDF lookup table, each sampled with the default sampler. A refused image
    /// stops the additions (those before it stay added) and its error is returned.
    pub fn set_skybox_image(
        &mut self,
        sky: (u32, u32),
        irradiance: (u32, u32),
        prefiltered: (u32, u32),
        brdf_lut: (u32, u32),
    ) -> (r: Result<SkyboxBindings, ResourceError>)
        requires
            old(self).wf(),
        ensures
            final(self).wf(),
            ({
                let n = old(self).texture_count() as int;
                let k = skybox_textures_added(n, sky, irradiance, prefiltered, brdf_lut);
                let refused = if k == 0 {
                    sky
                } else if k == 1 {
                    irradiance
                } else if k == 2 {
                    prefiltered
                } else {
                    brdf_lut
                };
                &&& final(self).texture_count() == n + k
                &&& k == 4 ==> r == Ok::<SkyboxBindings, ResourceError>(
                    SkyboxBindings {
                        tex: n as u32,
                        sampler: DEFAULT_SAMPLER_HANDLE as u32,
                        irradiance_tex: (n + 1) as u32,
                        irradiance_sampler: DEFAULT_SAMPLER_HANDLE as u32,
                        prefiltered_tex: (n + 2) as u32,
                        prefiltered_sampler: DEFAULT_SAMPLER_HANDLE as u32,
                        brdf_lut_tex: (n + 3) as u32,
                        brdf_lut_sampler: DEFAULT_SAMPLER_HANDLE as u32,
                    },
                )
                &&& k < 4 ==> r == Err::<SkyboxBindings, ResourceError>(texture_refusal(n + k, refused))
            }),
            final(self).sampler_count() == old(self).sampler_count(),
            final(self).meshes() == old(self).meshes(),
            final(self).materials() == old(self).materials(),
            final(self).tlas_slots() == old(self).tlas_slots(),
    {
        let tex = match self.add_texture(sky.0, sky.1) {
            Ok(h) => h,
            Err(e) => return Err(e),
        };
        let irradiance_tex = match self.add_texture(irradiance.0, irradiance.1) {
            Ok(h) => h,
            Err(e) => return Err(e),
        };
        let prefiltered_tex = match self.add_texture(prefiltered.0, prefiltered.1) {
            Ok(h) => h,
            Err(e) => return Err(e),
        };
        let brdf_lut_tex = match self.add_texture(brdf_lut.0, brdf_lut.1) {
            Ok(h) => h,
            Err(e) => return Err(e),
        };
        let sampler = DEFAULT_SAMPLER_HANDLE as u32;
        Ok(
            SkyboxBindings {
                tex: tex as u32,
                sampler,
                irradiance_tex: irradiance_tex as u32,
                irradiance_sampler: sampler,
                prefiltered_tex: prefiltered_tex as u32,
                prefiltered_sampler: sampler,
                brdf_lut_tex: brdf_lut_tex as u32,
                brdf_lut_sampler: sampler,
            },
        )
    }

    /// Where a mesh of `vertex_count` vertices and `index_count` indices would go in the
    /// shared buffers, or the overflow of the vertex buffer, then of the index buffer;
    /// nothing is reserved. A caller uploads there and then calls `reserve_mesh`.
    pub fn mesh_placement(&self, vertex_count: usize, index_count: usize) -> (r: Result<MeshUpload, ResourceError>)
        requires
            self.wf(),
        ensures
            ({
                let v_fits = vertex_count == 0 || self.vertices_used() + vertex_count <= MAX_VERTICES;
                let i_fits = index_count == 0 || self.indices_used() + index_count <= MAX_INDICES;
                &&& !(v_fits && i_fits) ==> r == Err::<MeshUpload, ResourceError>(ResourceError::BufferOverflow)
                &&& v_fits && i_fits ==> r == Ok::<MeshUpload, ResourceError>(MeshUpload {
                    vertex_offset: self.vertices_used() as i32,
                    index_offset: self.indices_used() as u32,
                    vertex_count: vertex_count as u32,
                    index_count: index_count as u32,
                    triangle_count: (index_count as u32) / 3,
                })
            }),
    {
        let vertex_offset = match self.vertex_buffer.placement(vertex_count) {
            Ok(v) => v,
            Err(e) => {
                return Err(e);
            },
        };
        let index_offset = match self.index_buffer.placement(index_count) {
            Ok(i) => i,
            Err(e) => {
                return Err(e);
            },
        };
        let vertex_count = vertex_count as u32;
        let index_count = index_count as u32;
        Ok(MeshUpload {
            vertex_offset: vertex_offset as i32,
            index_offset,
            vertex_count,
            index_count,
            triangle_count: index_count / 3,
        })
    }

    /// Counts a mesh of `vertex_count` vertices and `index_count` indices as placed in the
    /// shared buffers, once uploaded (vertices first; when the indices do not fit, the
    /// vertices stay counted).
    pub fn reserve_mesh(&mut self, vertex_count: usize, index_count: usize) -> (r: Result<MeshUpload, ResourceError>)
        requires
            old(self).wf(),
        ensures
            final(self).wf(),
            final(self).meshes() == old(self).meshes(),
            final(self).materials() == old(self).materials(),
            final(self).sampler_count() == old(self).sampler_count(),
            final(self).texture_count() == old(self).texture_count(),
            final(self).draw_items_used() == old(self).draw_items_used(),
            final(self).indirect_draws_used() == old(self).indirect_draws_used(),
            ({
                let v_fits = vertex_count == 0 || old(self).vertices_used() + vertex_count <= MAX_VERTICES;
                let i_fits = index_count == 0 || old(self).indices_used() + index_count <= MAX_INDICES;
                &&& !v_fits ==> r == Err::<MeshUpload, ResourceError>(ResourceError::BufferOverflow)
                    && final(self).vertices_used() == old(self).vertices_used()
                    && final(self).indices_used() == old(self).indices_used()
                &&& v_fits ==> final(self).vertices_used() == old(self).vertices_used() + vertex_count
                &&& v_fits && !i_fits ==> r == Err::<MeshUpload, ResourceError>(ResourceError::BufferOverflow)
                    && final(self).indices_used() == old(self).indices_used()
                &&& v_fits && i_fits ==> r == Ok::<MeshUpload, ResourceError>(MeshUpload {
                    vertex_offset: old(self).vertices_used() as i32,
                    index_offset: old(self).indices_used() as u32,
                    vertex_count: vertex_count as u32,
                    index_count: index_count as u32,
                    triangle_count: (index_count as u32) / 3,
                }) && final(self).indices_used() == old(self).indices_used() + index_count
            }),
    {
        let vertex_offset = match self.vertex_buffer.add(vertex_count) {
            Ok(v) => v,
            Err(e) => {
                return Err(e);
            },
        };
        let index_offset = match self.index_buffer.add(index_count) {
            Ok(i) => i,
            Err(e) => {
                return Err(e);
            },
        };
        let vertex_count = vertex_count as u32;
        let index_count = index_count as u32;
        Ok(MeshUpload {
            vertex_offset: vertex_offset as i32,
            index_offset,
            vertex_count,
            index_count,
            triangle_count: index_count / 3,
        })
    }

    /// Registers an uploaded mesh whose BLAS lives at `blas_address`; its handle is its
    /// position among the meshes.
    pub fn add_mesh(&mut self, upload: MeshUpload, blas_address: u64) -> (r: MeshHandle)
        requires
            old(self).wf(),
        ensures
            final(self).wf(),
            r == old(self).meshes().len(),
            final(self).meshes() == old(self).meshes().push(UploadedMesh {
                vertex_offset: upload.vertex_offset,
                index_offset: upload.index_offset,
                index_count: upload.index_count,
                blas_address,
            }),
            final(self).materials() == old(self).materials(),
            final(self).sampler_count() == old(self).sampler_count(),
            final(self).texture_count() == old(self).texture_count(),
            final(self).vertices_used() == old(self).vertices_used(),
            final(self).indices_used() == old(self).indices_used(),
    {
        let handle = self.uploaded_meshes.len() as u64;
        self.uploaded_meshes.push(UploadedMesh {
            vertex_offset: upload.vertex_offset,
            index_offset: upload.index_offset,
            index_count: upload.index_count,
            blas_address,
        });
        handle
    }

    pub fn get_mesh_index_count(&self, handle: MeshHandle) -> (r: u32)
        requires
            handle < self.meshes().len(),
        ensures
            r == self.meshes()[handle as int].index_count,
    {
        let mesh_count = self.uploaded_meshes.len();
        assert(handle < mesh_count);
        self.uploaded_meshes[handle as usize].index_count
    }

    pub fn get_mesh_vertex_offset(&self, handle: MeshHandle) -> (r: i32)
        requires
            handle < self.meshes().len(),
        ensures
            r == self.meshes()[handle as int].vertex_offset,
    {
        let mesh_count = self.uploaded_meshes.len();
        assert(handle < mesh_count);
        self.uploaded_meshes[handle as usize].vertex_offset
    }

    pub fn get_mesh_index_offset(&self, handle: MeshHandle) -> (r: u32)
        requires
            handle < self.meshes().len(),
        ensures
            r == self.meshes()[handle as int].index_offset,
    {
        let mesh_count = self.uploaded_meshes.len();
        assert(handle < mesh_count);
        self.uploaded_meshes[handle as usize].index_offset
    }

    /// Returns packed mesh offsets for DrawItem.mesh_offsets:
    ///   low  32 bits = vertex_offset (first vertex in the global VB for this mesh, as u32)
    ///   high 32 bits = index_offset  (first index in the global IB for this mesh)
    pub fn pack_mesh_offsets(&self, handle: MeshHandle) -> (r: u64)
        requires
            handle < self.meshes().len(),
        ensures
            r == packed_mesh_offsets(self.meshes()[handle as int]),
    {
        let mesh_count = self.uploaded_meshes.len();
        assert(handle < mesh_count);
        let mesh = &self.uploaded_meshes[handle as usize];
        let vertex_offset: u32 = if mesh.vertex_offset < 0 {
            0
        } else {
            mesh.vertex_offset as u32
        };
        let index_offset = mesh.index_offset;
        proof {
            lemma_pack_u32_pair(vertex_offset, index_offset);
        }
        (vertex_offset as u64) | ((index_offset as u64) << 32u64)
    }

    /// Appends a material and returns its handle.
    pub fn add_material(&mut self, material: M) -> (r: Result<MaterialHandle, ResourceError>)
        requires
            old(self).wf(),
        ensures
            final(self).wf(),
            old(self).materials().len() < MAX_MATERIALS ==> r == Ok::<u64, ResourceError>(
                old(self).materials().len() as u64,
            ) && final(self).materials() == old(self).materials().push(material),
            old(self).materials().len() >= MAX_MATERIALS ==> r == Err::<u64, ResourceError>(
                ResourceError::BufferOverflow,
            ) && final(self).materials() == old(self).materials(),
            final(self).meshes() == old(self).meshes(),
            final(self).sampler_count() == old(self).sampler_count(),
            final(self).texture_count() == old(self).texture_count(),
    {
        self.material_buffer.add(material)
    }

    pub fn get_material(&self, handle: MaterialHandle) -> (r: M)
        requires
            handle < self.materials().len(),
        ensures
            r == self.materials()[handle as int],
    {
        let material_count = self.material_buffer.len();
        assert(handle < material_count);
        self.material_buffer.get(handle as usize)
    }

    /// Replaces the draw items of the frame with `count` new ones.
    pub fn set_draw_items(&mut self, count: usize) -> (r: Result<(), ResourceError>)
        requires
            old(self).wf(),
        ensures
            final(self).wf(),
            count <= MAX_DRAW_ITEMS ==> r is Ok && final(self).draw_items_used() == count,
            count > MAX_DRAW_ITEMS ==> r == Err::<(), ResourceError>(ResourceError::BufferOverflow)
                && final(self).draw_items_used() == 0,
            final(self).meshes() == old(self).meshes(),
            final(self).materials() == old(self).materials(),
    {
        self.items_buffer.clear();
        match self.items_buffer.add(count) {
            Ok(_) => Ok(()),
            Err(e) => Err(e),
        }
    }

    /// Empties the indirect draw buffer of the frame.
    pub fn reset_global_indirect_buffer(&mut self)
        requires
            old(self).wf(),
        ensures
            final(self).wf(),
            final(self).indirect_draws_used() == 0,
            final(self).meshes() == old(self).meshes(),
            final(self).materials() == old(self).materials(),
            final(self).draw_items_used() == old(self).draw_items_used(),
    {
        self.global_indirect_buffer.clear();
    }

    /// Appends `count` indirect draw commands and returns the index of the first.
    pub fn add_indirect_draw_commands(&mut self, count: usize) -> (r: Result<u32, ResourceError>)
        requires
            old(self).wf(),
        ensures
            final(self).wf(),
            count == 0 ==> r == Ok::<u32, ResourceError>(old(self).indirect_draws_used() as u32)
                && final(self).indirect_draws_used() == old(self).indirect_draws_used(),
            count > 0 && old(self).indirect_draws_used() + count > MAX_INDIRECT_DRAWS ==> r == Err::<
                u32,
                ResourceError,
            >(ResourceError::BufferOverflow) && final(self).indirect_draws_used()
                == old(self).indirect_draws_used(),
            count > 0 && old(self).indirect_draws_used() + count <= MAX_INDIRECT_DRAWS ==> r == Ok::<
                u32,
                ResourceError,
            >(old(self).indirect_draws_used() as u32) && final(self).indirect_draws_used()
                == old(self).indirect_draws_used() + count,
            final(self).meshes() == old(self).meshes(),
            final(self).materials() == old(self).materials(),
            final(self).draw_items_used() == old(self).draw_items_used(),
    {
        self.global_indirect_buffer.add(count)
    }

    /// The BLAS inputs of a mesh reserved by `reserve_mesh`, given the device addresses of
    /// the shared vertex and index buffers.
    pub fn blas_geometry(upload: MeshUpload, vertex_buffer_address: u64, index_buffer_address: u64, vertex_stride: u64) -> (r: BlasGeometry)
        requires
            vertex_buffer_address + nonneg(upload.vertex_offset) * vertex_stride <= u64::MAX,
            index_buffer_address + upload.index_offset * 4 <= u64::MAX,
        ensures
            r.vertex_address == vertex_buffer_address + nonneg(upload.vertex_offset) * vertex_stride,
            r.index_address == index_buffer_address + upload.index_offset * 4,
            r.vertex_stride == vertex_stride,
            r.max_vertex == (if upload.vertex_count == 0 { 0 } else { upload.vertex_count - 1 }),
            r.primitive_count == upload.triangle_count,
    {
        let vo: u64 = if upload.vertex_offset < 0 {
            0
        } else {
            upload.vertex_offset as u64
        };
        proof {
            vstd::arithmetic::mul::lemma_mul_nonnegative(vo as int, vertex_stride as int);
        }
        BlasGeometry {
            vertex_address: vertex_buffer_address + vo * vertex_stride,
            index_address: index_buffer_address + (upload.index_offset as u64) * 4,
            vertex_stride,
            max_vertex: if upload.vertex_count == 0 { 0 } else { upload.vertex_count - 1 },
            primitive_count: upload.triangle_count,
        }
    }
}

} // verus!

verus! {

/// The TLAS instances for the first `n` draw items: item `i` contributes an instance of
/// its mesh's BLAS with custom index `i` and full mask when `include` holds of it.
pub open spec fn tlas_selection(
    meshes: Seq<UploadedMesh>,
    item_meshes: Seq<u64>,
    item_modes: Seq<PbrBlendMode>,
    n: int,
    skip_empty: bool,
) -> Seq<TlasInstanceRef>
    decreases n,
{
    if n <= 0 {
        Seq::empty()
    } else {
        let prev = tlas_selection(meshes, item_meshes, item_modes, n - 1, skip_empty);
        let m = item_meshes[n - 1];
        if tlas_includes(meshes, m, item_modes[n - 1], skip_empty) {
            prev.push(TlasInstanceRef {
                blas_address: meshes[m as int].blas_address,
                draw_item_index: (n - 1) as u32,
                instance_custom_index_and_mask: custom_index_and_mask((n - 1) as u32, 0xFF) as u32,
            })
        } else {
            prev
        }
    }
}

/// Whether a draw item of mesh `m` and blend mode `mode` gets a TLAS instance: its mesh
/// exists and, when `skip_empty` (the TLAS of the scene's opaque and masked geometry),
/// has indices and the item is not transparent.
pub open spec fn tlas_includes(meshes: Seq<UploadedMesh>, m: u64, mode: PbrBlendMode, skip_empty: bool) -> bool {
    m < meshes.len() && (!skip_empty || (meshes[m as int].index_count != 0 && mode != PbrBlendMode::Transparent))
}

impl<M: Copy> ResourceManager<M> {
    fn tlas_instances(&self, item_meshes: &[MeshHandle], item_modes: &[PbrBlendMode], skip_empty: bool) -> (r: Vec<
        TlasInstanceRef,
    >)
        requires
            skip_empty ==> item_modes@.len() == item_meshes@.len(),
        ensures
            r@ == tlas_selection(self.meshes(), item_meshes@, item_modes@, item_meshes@.len() as int, skip_empty),
    {
        let n_meshes = self.uploaded_meshes.len();
        let mut instances: Vec<TlasInstanceRef> = Vec::new();
        let n = item_meshes.len();
        let mut idx: usize = 0;
        while idx < n
            invariant
                idx <= n,
                n == item_meshes@.len(),
                skip_empty ==> item_modes@.len() == n,
                n_meshes == self.meshes().len(),
                instances@ == tlas_selection(self.meshes(), item_meshes@, item_modes@, idx as int, skip_empty),
            decreases n - idx,
        {
            let m = item_meshes[idx];
            if m < n_meshes as u64 {
                let mesh = &self.uploaded_meshes[m as usize];
                if !skip_empty || (mesh.index_count != 0 && item_modes[idx] != PbrBlendMode::Transparent) {
                    let custom = pack_instance_custom_index_and_mask(idx as u32, 0xFF);
                    instances.push(TlasInstanceRef {
                        blas_address: mesh.blas_address,
                        draw_item_index: idx as u32,
                        instance_custom_index_and_mask: custom,
                    });
                }
            }
            idx = idx + 1;
        }
        instances
    }

    /// The instances of a TLAS covering the opaque and masked draw items (given by their
    /// mesh handles and their materials' blend modes) whose mesh has indices; each
    /// instance's custom index is its draw item's index. An empty result means there is
    /// no geometry to build a TLAS from.
    pub fn build_tlas_for_items(&self, item_meshes: &[MeshHandle], item_modes: &[PbrBlendMode]) -> (r: Vec<
        TlasInstanceRef,
    >)
        requires
            forall|i: int| 0 <= i < item_meshes@.len() ==> #[trigger] item_meshes@[i] < self.meshes().len(),
            item_modes@.len() == item_meshes@.len(),
        ensures
            r@ == tlas_selection(self.meshes(), item_meshes@, item_modes@, item_meshes@.len() as int, true),
    {
        self.tlas_instances(item_meshes, item_modes, true)
    }

    /// The instances of the TLAS every draw item whose mesh handle names an uploaded
    /// mesh contributes to (items naming no mesh are skipped).
    pub fn per_frame_tlas_instances(&self, item_meshes: &[MeshHandle]) -> (r: Vec<TlasInstanceRef>)
        ensures
            r@ == tlas_selection(self.meshes(), item_meshes@, Seq::empty(), item_meshes@.len() as int, false),
    {
        let none: Vec<PbrBlendMode> = Vec::new();
        self.tlas_instances(item_meshes, none.as_slice(), false)
    }

    /// Rebuilds the TLAS of frame slot `frame_slot` from the draw items: when some item
    /// names an uploaded mesh, the slot's TLAS (and the TLAS descriptor of that slot) is
    /// replaced by one built from those instances and `true` is returned; otherwise the
    /// slot keeps its previous TLAS and `false` is returned.
    pub fn update_tlas(&mut self, frame_slot: usize, item_meshes: &[MeshHandle]) -> (rebuilt: bool)
        requires
            old(self).wf(),
            frame_slot < old(self).spec_frames_in_flight(),
        ensures
            final(self).wf(),
            ({
                let sel = tlas_selection(old(self).meshes(), item_meshes@, Seq::empty(), item_meshes@.len() as int, false);
                &&& rebuilt == (sel.len() > 0)
                &&& sel.len() > 0 ==> final(self).tlas_slots() == old(self).tlas_slots().update(frame_slot as int, Some(sel))
                &&& sel.len() == 0 ==> final(self).tlas_slots() == old(self).tlas_slots()
            }),
            final(self).meshes() == old(self).meshes(),
            final(self).materials() == old(self).materials(),
            final(self).sampler_count() == old(self).sampler_count(),
            final(self).texture_count() == old(self).texture_count(),
            final(self).spec_frames_in_flight() == old(self).spec_frames_in_flight(),
    {
        let instances = self.per_frame_tlas_instances(item_meshes);
        if instances.len() == 0 {
            return false;
        }
        let ghost sel = instances@;
        self.tlas_slots.set(frame_slot, Some(instances));
        proof {
            assert(self.tlas_slots() =~= old(self).tlas_slots().update(frame_slot as int, Some(sel)));
        }
        true
    }

    /// The instances frame slot `slot`'s TLAS was last built from, if any.
    pub fn tlas_slot(&self, slot: usize) -> (r: &Option<Vec<TlasInstanceRef>>)
        requires
            self.wf(),
            slot < self.spec_frames_in_flight(),
        ensures
            match *r {
                Some(v) => self.tlas_slots()[slot as int] == Some(v@),
                None => self.tlas_slots()[slot as int] is None,
            },
    {
        &self.tlas_slots[slot]
    }
}

/// A TLAS instance points at the BLAS of its draw item's mesh, and its custom index
/// recovers that draw item's index (below 2^24) from the packed field.
pub proof fn lemma_tlas_instances_track_draw_items(
    meshes: Seq<UploadedMesh>,
    item_meshes: Seq<u64>,
    item_modes: Seq<PbrBlendMode>,
    n: int,
    skip_empty: bool,
)
    requires
        0 <= n <= item_meshes.len(),
        n <= 0x100_0000,
    ensures
        forall|k: int|
            0 <= k < tlas_selection(meshes, item_meshes, item_modes, n, skip_empty).len() ==> {
                let inst = #[trigger] tlas_selection(meshes, item_meshes, item_modes, n, skip_empty)[k];
                &&& inst.draw_item_index < n
                &&& tlas_includes(meshes, item_meshes[inst.draw_item_index as int], item_modes[inst.draw_item_index as int], skip_empty)
                &&& inst.blas_address == meshes[item_meshes[inst.draw_item_index as int] as int].blas_address
                &&& inst.instance_custom_index_and_mask % 0x100_0000 == inst.draw_item_index
                &&& inst.instance_custom_index_and_mask / 0x100_0000 == 0xFF
            },
        tlas_selection(meshes, item_meshes, item_modes, n, skip_empty).len() <= n,
    decreases n,
{
    if n > 0 {
        lemma_tlas_instances_track_draw_items(meshes, item_meshes, item_modes, n - 1, skip_empty);
        let i = (n - 1) as u32;
        assert(custom_index_and_mask(i, 0xFF) == i + 0xFF * 0x100_0000) by {
            vstd::arithmetic::div_mod::lemma_small_mod(i as nat, 0x100_0000);
        }
        vstd::arithmetic::div_mod::lemma_fundamental_div_mod_converse(i + 0xFF * 0x100_0000, 0x100_0000, 0xFF, i as int);
    }
}

} // verus!

verus! {

pub const DESCRIPTOR_TYPE_SAMPLER: i32 = 0;
pub const DESCRIPTOR_TYPE_SAMPLED_IMAGE: i32 = 2;
pub const DESCRIPTOR_TYPE_UNIFORM_BUFFER: i32 = 6;
pub const DESCRIPTOR_TYPE_STORAGE_BUFFER: i32 = 7;
pub const DESCRIPTOR_TYPE_ACCELERATION_STRUCTURE_KHR: i32 = 1000150000;

pub const SHADER_STAGE_ALL: u32 = 0x7FFF_FFFF;
pub const SHADER_STAGE_RAYGEN_KHR: u32 = 0x100;
pub const SHADER_STAGE_CLOSEST_HIT_KHR: u32 = 0x400;

/// One binding of a descriptor set layout.
#[derive(Debug, Clone, Copy, PartialEq, Eq, Structural)]
pub struct DescriptorBinding {
    pub descriptor_type: i32,
    pub binding: u32,
    pub stages: u32,
    pub count: u32,
}

/// The binding of a descriptor seen by every shader stage.
pub open spec fn all_stages_binding(descriptor_type: i32, binding: u32, count: u32) -> DescriptorBinding {
    DescriptorBinding { descriptor_type, binding, stages: SHADER_STAGE_ALL, count }
}

/// The layout of the meta descriptor set every pipeline binds: the vertex, material,
/// draw-item and index buffers, the bindless texture and sampler arrays, the skybox
/// parameters, and the frame's TLAS (ray generation and closest hit only).
pub open spec fn meta_bindings_spec() -> Seq<DescriptorBinding> {
    seq![
        all_stages_binding(DESCRIPTOR_TYPE_STORAGE_BUFFER, META_BUFFER_BINDING_VERTEX, 1),
        all_stages_binding(DESCRIPTOR_TYPE_STORAGE_BUFFER, META_BUFFER_BINDING_MATERIAL, 1),
        all_stages_binding(DESCRIPTOR_TYPE_SAMPLED_IMAGE, META_BUFFER_BINDING_TEXTURE, MAX_TEXTURES as u32),
        all_stages_binding(DESCRIPTOR_TYPE_SAMPLER, META_BUFFER_BINDING_SAMPLER, MAX_SAMPLERS as u32),
        all_stages_binding(DESCRIPTOR_TYPE_STORAGE_BUFFER, META_BUFFER_BINDING_DRAW_ITEMS, 1),
        all_stages_binding(DESCRIPTOR_TYPE_UNIFORM_BUFFER, META_BUFFER_BINDING_SKYBOX, 1),
        all_stages_binding(DESCRIPTOR_TYPE_STORAGE_BUFFER, META_BUFFER_BINDING_INDEX, 1),
        DescriptorBinding {
            descriptor_type: DESCRIPTOR_TYPE_ACCELERATION_STRUCTURE_KHR,
            binding: META_BUFFER_BINDING_TLAS,
            stages: SHADER_STAGE_RAYGEN_KHR | SHADER_STAGE_CLOSEST_HIT_KHR,
            count: 1,
        },
    ]
}

/// The bindings of the meta descriptor set layout, in order.
pub fn meta_descriptor_bindings() -> (r: Vec<DescriptorBinding>)
    ensures
        r@ == meta_bindings_spec(),
{
    let mut r: Vec<DescriptorBinding> = Vec::new();
    r.push(DescriptorBinding { descriptor_type: DESCRIPTOR_TYPE_STORAGE_BUFFER, binding: META_BUFFER_BINDING_VERTEX, stages: SHADER_STAGE_ALL, count: 1 });
    r.push(DescriptorBinding { descriptor_type: DESCRIPTOR_TYPE_STORAGE_BUFFER, binding: META_BUFFER_BINDING_MATERIAL, stages: SHADER_STAGE_ALL, count: 1 });
    r.push(DescriptorBinding { descriptor_type: DESCRIPTOR_TYPE_SAMPLED_IMAGE, binding: META_BUFFER_BINDING_TEXTURE, stages: SHADER_STAGE_ALL, count: MAX_TEXTURES as u32 });
    r.push(DescriptorBinding { descriptor_type: DESCRIPTOR_TYPE_SAMPLER, binding: META_BUFFER_BINDING_SAMPLER, stages: SHADER_STAGE_ALL, count: MAX_SAMPLERS as u32 });
    r.push(DescriptorBinding { descriptor_type: DESCRIPTOR_TYPE_STORAGE_BUFFER, binding: META_BUFFER_BINDING_DRAW_ITEMS, stages: SHADER_STAGE_ALL, count: 1 });
    r.push(DescriptorBinding { descriptor_type: DESCRIPTOR_TYPE_UNIFORM_BUFFER, binding: META_BUFFER_BINDING_SKYBOX, stages: SHADER_STAGE_ALL, count: 1 });
    r.push(DescriptorBinding { descriptor_type: DESCRIPTOR_TYPE_STORAGE_BUFFER, binding: META_BUFFER_BINDING_INDEX, stages: SHADER_STAGE_ALL, count: 1 });
    r.push(DescriptorBinding {
        descriptor_type: DESCRIPTOR_TYPE_ACCELERATION_STRUCTURE_KHR,
        binding: META_BUFFER_BINDING_TLAS,
        stages: SHADER_STAGE_RAYGEN_KHR | SHADER_STAGE_CLOSEST_HIT_KHR,
        count: 1,
    });
    proof {
        assert(r@ =~= meta_bindings_spec());
    }
    r
}

/// The meta descriptor set binds each binding number once, and the bindless arrays
/// have room for every texture and sampler handle the manager hands out.
pub proof fn lemma_meta_bindings_distinct_and_sized()
    ensures
        forall|i: int, j: int|
            0 <= i < j < meta_bindings_spec().len() ==> #[trigger] meta_bindings_spec()[i].binding
                != #[trigger] meta_bindings_spec()[j].binding,
        meta_bindings_spec()[2].count == MAX_TEXTURES,
        meta_bindings_spec()[3].count == MAX_SAMPLERS,
{
}

/// The meta descriptor set declares binding `n`.
pub open spec fn meta_declares_binding(n: u32) -> bool {
    exists|k: int| 0 <= k < meta_bindings_spec().len() && #[trigger] meta_bindings_spec()[k].binding == n
}

/// The meta descriptor set declares each resource the way it is bound and read: the
/// skybox parameters, one constant block, as a uniform buffer; the vertex, material,
/// draw-item and index arrays as storage buffers; the bindless textures as sampled
/// images and the samplers as samplers, one descriptor per handle; the frame's TLAS as
/// an acceleration structure seen by ray generation and closest hit only; and every
/// other binding by all stages. Each of the eight bindings is declared.
pub proof fn lemma_meta_bindings_typed_by_resource()
    ensures
        forall|k: int|
            #![trigger meta_bindings_spec()[k]]
            0 <= k < meta_bindings_spec().len() ==> {
                let b = meta_bindings_spec()[k];
                &&& b.binding == META_BUFFER_BINDING_SKYBOX ==> b.descriptor_type == DESCRIPTOR_TYPE_UNIFORM_BUFFER
                    && b.count == 1
                &&& (b.binding == META_BUFFER_BINDING_VERTEX || b.binding == META_BUFFER_BINDING_MATERIAL
                    || b.binding == META_BUFFER_BINDING_DRAW_ITEMS || b.binding == META_BUFFER_BINDING_INDEX)
                    ==> b.descriptor_type == DESCRIPTOR_TYPE_STORAGE_BUFFER && b.count == 1
                &&& b.binding == META_BUFFER_BINDING_TEXTURE ==> b.descriptor_type == DESCRIPTOR_TYPE_SAMPLED_IMAGE
                    && b.count == MAX_TEXTURES
                &&& b.binding == META_BUFFER_BINDING_SAMPLER ==> b.descriptor_type == DESCRIPTOR_TYPE_SAMPLER
                    && b.count == MAX_SAMPLERS
                &&& b.binding == META_BUFFER_BINDING_TLAS ==> b.descriptor_type
                    == DESCRIPTOR_TYPE_ACCELERATION_STRUCTURE_KHR && b.count == 1 && b.stages == (
                    SHADER_STAGE_RAYGEN_KHR | SHADER_STAGE_CLOSEST_HIT_KHR)
                &&& b.binding != META_BUFFER_BINDING_TLAS ==> b.stages == SHADER_STAGE_ALL
            },
        forall|n: u32| n <= META_BUFFER_BINDING_TLAS ==> #[trigger] meta_declares_binding(n),
{
    let s = meta_bindings_spec();
    assert forall|n: u32| n <= META_BUFFER_BINDING_TLAS implies #[trigger] meta_declares_binding(n) by {
        if n == META_BUFFER_BINDING_VERTEX {
            assert(s[0].binding == n);
        } else if n == META_BUFFER_BINDING_MATERIAL {
            assert(s[1].binding == n);
        } else if n == META_BUFFER_BINDING_TEXTURE {
            assert(s[2].binding == n);
        } else if n == META_BUFFER_BINDING_DRAW_ITEMS {
            assert(s[4].binding == n);
        } else if n == META_BUFFER_BINDING_SAMPLER {
            assert(s[3].binding == n);
        } else if n == META_BUFFER_BINDING_SKYBOX {
            assert(s[5].binding == n);
        } else if n == META_BUFFER_BINDING_INDEX {
            assert(s[6].binding == n);
        } else {
            assert(s[7].binding == n);
        }
    }
}

} // verus!
