//! The node hierarchy of a glTF scene as the renderer lays it out: every glTF node in
//! depth-first order, each followed by one node per primitive of its mesh and then by
//! its children's subtrees.

use vstd::prelude::*;
use crate::cmgen_files::{decimal, decimal_string};
use crate::resources::{DEFAULT_SAMPLER_HANDLE, INVALID_RESOURCE_HANDLE};
use vstd::string::StringExecFns;
use vstd::string::StrSliceExecFns;

verus! {

#[verifier::external_type_specification]
#[verifier::external_body]
pub struct ExGltf(gltf::Gltf);

#[verifier::external_type_specification]
#[verifier::external_body]
pub struct ExGltfError(gltf::Error);

/// What the loader reads of one glTF node.
#[derive(Debug, Clone)]
pub struct GltfNodeDesc {
    pub name: Option<String>,
    /// The number of primitives of the node's mesh, if it has one.
    pub mesh_primitives: Option<usize>,
    /// The indices of the node's children, in order.
    pub children: Vec<usize>,
}

/// What the loader reads of a glTF document.
#[derive(Debug, Clone)]
pub struct GltfDocument {
    pub nodes: Vec<GltfNodeDesc>,
    /// The root nodes of each scene, scene after scene.
    pub scenes: Vec<Vec<usize>>,
    /// For each buffer: its data lies outside the file (a URI) rather than in the BIN
    /// chunk.
    pub external_buffers: Vec<bool>,
}

/// A glTF node as a value.
pub struct GltfNodeView {
    pub name: Option<Seq<char>>,
    pub mesh_primitives: Option<usize>,
    pub children: Seq<usize>,
}

impl View for GltfNodeDesc {
    type V = GltfNodeView;

    open spec fn view(&self) -> GltfNodeView {
        GltfNodeView {
            name: match self.name {
                Some(s) => Some(s@),
                None => None,
            },
            mesh_primitives: self.mesh_primitives,
            children: self.children@,
        }
    }
}

/// A glTF document as a value.
pub struct GltfDocumentView {
    pub nodes: Seq<GltfNodeView>,
    pub scenes: Seq<Seq<usize>>,
    pub external_buffers: Seq<bool>,
}

impl View for GltfDocument {
    type V = GltfDocumentView;

    open spec fn view(&self) -> GltfDocumentView {
        GltfDocumentView {
            nodes: self.nodes@.map_values(|n: GltfNodeDesc| n@),
            scenes: self.scenes@.map_values(|s: Vec<usize>| s@),
            external_buffers: self.external_buffers@,
        }
    }
}

/// Where a node of the laid-out scene comes from.
#[derive(Debug, Clone, Copy, PartialEq, Eq, Structural)]
pub enum GltfNodeSource {
    /// The glTF node with this index (its local transform, no mesh).
    Node { node: usize },
    /// Primitive `primitive` of the mesh of glTF node `node` (identity transform; the
    /// primitive's mesh and material).
    Primitive { node: usize, primitive: usize },
}

/// One node of the laid-out scene.
#[derive(Debug, Clone)]
pub struct GltfPlanNode {
    pub name: String,
    /// Indices of its children in the laid-out scene.
    pub children: Vec<usize>,
    pub source: GltfNodeSource,
}

/// A laid-out node as a value.
pub struct GltfPlanNodeView {
    pub name: Seq<char>,
    pub children: Seq<usize>,
    pub source: GltfNodeSource,
}

impl View for GltfPlanNode {
    type V = GltfPlanNodeView;

    open spec fn view(&self) -> GltfPlanNodeView {
        GltfPlanNodeView { name: self.name@, children: self.children@, source: self.source }
    }
}

/// Why a glTF file cannot be laid out.
#[derive(Debug, Clone, Copy, PartialEq, Eq, Structural)]
pub enum GltfError {
    /// The bytes are not a valid glTF or GLB file.
    Parse,
    /// A buffer lies outside the file; only self-contained GLB files are supported.
    ExternalBuffer,
    /// A node refers to a node that does not exist, or the hierarchy has a cycle.
    InvalidNodeHierarchy,
}

/// Where the encoded bytes of a glTF image are.
#[derive(Debug, Clone, Copy, PartialEq, Eq, Structural)]
pub enum GltfImageSource {
    /// `length` bytes at `offset` of a buffer view; `external_buffer` when that
    /// view's buffer lies outside the file.
    View { external_buffer: bool, offset: usize, length: usize },
    /// A URI outside the file.
    Uri,
}

/// Why a glTF image cannot be read from the file.
#[derive(Debug, Clone, Copy, PartialEq, Eq, Structural)]
pub enum GltfImageError {
    /// The file has no BIN chunk to hold the image.
    MissingBlob,
    /// The image's buffer view reaches past the end of the BIN chunk.
    ViewOutOfBounds,
    /// The image's buffer lies outside the file.
    ExternalBuffer,
    /// The image is referred to by URI instead of being embedded.
    Uri,
}

/// The byte range `[start, end)` of the BIN chunk (of `blob_len` bytes, if the file
/// has one) that holds an image, or why there is none.
pub open spec fn image_byte_range(source: GltfImageSource, blob_len: Option<usize>) -> Result<
    (usize, usize),
    GltfImageError,
> {
    match source {
        GltfImageSource::View { external_buffer, offset, length } => match blob_len {
            None => Err(GltfImageError::MissingBlob),
            Some(n) => if external_buffer {
                Err(GltfImageError::ExternalBuffer)
            } else if offset + length <= n {
                Ok((offset, (offset + length) as usize))
            } else {
                Err(GltfImageError::ViewOutOfBounds)
            },
        },
        GltfImageSource::Uri => Err(GltfImageError::Uri),
    }
}

/// Where in the BIN chunk an embedded image's bytes lie: refused when the image is
/// referred to by URI; for a buffer view, refused when the file has no BIN chunk, then
/// when the view's buffer lies outside the file, then when the view reaches past the
/// chunk's end.
pub fn gltf_image_byte_range(source: GltfImageSource, blob_len: Option<usize>) -> (r: Result<
    (usize, usize),
    GltfImageError,
>)
    requires
        source matches GltfImageSource::View { offset, length, .. } ==> offset + length <= usize::MAX,
    ensures
        r == image_byte_range(source, blob_len),
{
    match source {
        GltfImageSource::View { external_buffer, offset, length } => match blob_len {
            None => Err(GltfImageError::MissingBlob),
            Some(n) => {
                if external_buffer {
                    Err(GltfImageError::ExternalBuffer)
                } else if offset + length <= n {
                    Ok((offset, offset + length))
                } else {
                    Err(GltfImageError::ViewOutOfBounds)
                }
            },
        },
        GltfImageSource::Uri => Err(GltfImageError::Uri),
    }
}

/// The albedo texture and sampler of a material: with a base color texture, the
/// texture its image was uploaded as (the invalid handle when that image has none)
/// and the default sampler; without one, both invalid.
pub fn albedo_texture_binding(base_color_image: Option<usize>, image_textures: &[u64]) -> (r: (u64, u64))
    ensures
        r == (match base_color_image {
            None => (INVALID_RESOURCE_HANDLE, INVALID_RESOURCE_HANDLE),
            Some(i) => (
                if i < image_textures@.len() {
                    image_textures@[i as int]
                } else {
                    INVALID_RESOURCE_HANDLE
                },
                DEFAULT_SAMPLER_HANDLE,
            ),
        }),
{
    match base_color_image {
        None => (INVALID_RESOURCE_HANDLE, INVALID_RESOURCE_HANDLE),
        Some(i) => {
            let tex = if i < image_textures.len() {
                image_textures[i]
            } else {
                INVALID_RESOURCE_HANDLE
            };
            (tex, DEFAULT_SAMPLER_HANDLE)
        },
    }
}

/// The views of a sequence of laid-out nodes.
pub open spec fn plan_view(s: Seq<GltfPlanNode>) -> Seq<GltfPlanNodeView> {
    s.map_values(|p: GltfPlanNode| p@)
}

/// A node's name, or the empty name.
pub open spec fn base_name(d: GltfNodeView) -> Seq<char> {
    match d.name {
        Some(s) => s,
        None => Seq::empty(),
    }
}

/// The number of primitives a node draws.
pub open spec fn primitive_count(d: GltfNodeView) -> nat {
    match d.mesh_primitives {
        Some(k) => k as nat,
        None => 0,
    }
}

/// The name of the node of primitive `p` of a node named `base`.
pub open spec fn primitive_name(base: Seq<char>, p: nat) -> Seq<char> {
    if base.len() == 0 {
        "primitive#"@ + decimal(p)
    } else {
        base + "#prim"@ + decimal(p)
    }
}

/// The node of primitive `p` of glTF node `n`.
pub open spec fn primitive_entry(d: GltfNodeView, n: int, p: int) -> GltfPlanNodeView {
    GltfPlanNodeView {
        name: primitive_name(base_name(d), p as nat),
        children: Seq::empty(),
        source: GltfNodeSource::Primitive { node: n as usize, primitive: p as usize },
    }
}

/// The laid-out subtree of glTF node `n` when its first node lands at index `base`;
/// none when it refers to a missing node or is deeper than `fuel`.
pub open spec fn subtree(nodes: Seq<GltfNodeView>, n: int, base: int, fuel: nat) -> Option<Seq<GltfPlanNodeView>>
    decreases fuel, 0int, 0int,
{
    if fuel == 0 || !(0 <= n < nodes.len()) {
        None
    } else {
        let d = nodes[n];
        let pc = primitive_count(d);
        match forest(nodes, d.children, 0, base + 1 + pc, (fuel - 1) as nat) {
            None => None,
            Some((entries, starts)) => Some(
                seq![
                    GltfPlanNodeView {
                        name: base_name(d),
                        children: Seq::new(pc, |p: int| (base + 1 + p) as usize) + starts,
                        source: GltfNodeSource::Node { node: n as usize },
                    },
                ] + Seq::new(pc, |p: int| primitive_entry(d, n, p)) + entries,
            ),
        }
    }
}

/// The laid-out subtrees of `roots[k..]`, the first landing at index `base`, with the
/// index each lands at.
pub open spec fn forest(nodes: Seq<GltfNodeView>, roots: Seq<usize>, k: int, base: int, fuel: nat) -> Option<
    (Seq<GltfPlanNodeView>, Seq<usize>),
>
    decreases fuel, 1int, roots.len() - k,
{
    if k < 0 || k >= roots.len() {
        Some((Seq::empty(), Seq::empty()))
    } else {
        match subtree(nodes, roots[k] as int, base, fuel) {
            None => None,
            Some(e) => match forest(nodes, roots, k + 1, base + e.len(), fuel) {
                None => None,
                Some((rest, starts)) => Some((e + rest, seq![base as usize] + starts)),
            },
        }
    }
}

/// The root nodes of all scenes, scene after scene.
pub open spec fn all_roots(scenes: Seq<Seq<usize>>) -> Seq<usize>
    decreases scenes.len(),
{
    if scenes.len() == 0 {
        Seq::empty()
    } else {
        all_roots(scenes.drop_last()) + scenes.last()
    }
}

/// The subtrees of every scene's roots of a document, in order, whatever its buffers.
pub open spec fn scene_layout(doc: GltfDocumentView) -> Result<Seq<GltfPlanNodeView>, GltfError> {
    match forest(doc.nodes, all_roots(doc.scenes), 0, 0, doc.nodes.len()) {
        None => Err(GltfError::InvalidNodeHierarchy),
        Some((entries, _)) => Ok(entries),
    }
}

/// The laid-out scene of a self-contained document: the subtrees of every scene's
/// roots, in order.
pub open spec fn gltf_plan(doc: GltfDocumentView) -> Result<Seq<GltfPlanNodeView>, GltfError> {
    if exists|i: int| 0 <= i < doc.external_buffers.len() && #[trigger] doc.external_buffers[i] {
        Err(GltfError::ExternalBuffer)
    } else {
        scene_layout(doc)
    }
}

/// The `(node, primitive)` sources of the primitive entries of a laid-out scene, in
/// order.
pub open spec fn primitive_sources(plan: Seq<GltfPlanNodeView>) -> Seq<(usize, usize)>
    decreases plan.len(),
{
    if plan.len() == 0 {
        Seq::empty()
    } else {
        let rest = primitive_sources(plan.drop_last());
        match plan.last().source {
            GltfNodeSource::Primitive { node, primitive } => rest.push((node, primitive)),
            GltfNodeSource::Node { .. } => rest,
        }
    }
}

/// The primitives a forward-shaded viewer draws from a laid-out scene, in the order it
/// visits them (each scene's root subtrees depth first, a node's primitives before its
/// children), as `(node, primitive)` pairs.
pub fn scene_primitives(plan: &[GltfPlanNode]) -> (r: Vec<(usize, usize)>)
    ensures
        r@ == primitive_sources(plan_view(plan@)),
{
    let mut out: Vec<(usize, usize)> = Vec::new();
    let mut i: usize = 0;
    while i < plan.len()
        invariant
            i <= plan@.len(),
            out@ == primitive_sources(plan_view(plan@).subrange(0, i as int)),
        decreases plan@.len() - i,
    {
        proof {
            assert(plan_view(plan@).subrange(0, i + 1).drop_last() =~= plan_view(plan@).subrange(0, i as int));
            assert(plan_view(plan@).subrange(0, i + 1).last() == plan@[i as int]@);
        }
        match plan[i].source {
            GltfNodeSource::Primitive { node, primitive } => {
                out.push((node, primitive));
            },
            GltfNodeSource::Node { .. } => {},
        }
        i = i + 1;
    }
    proof {
        assert(plan_view(plan@).subrange(0, plan@.len() as int) =~= plan_view(plan@));
    }
    out
}

/// Whether two strings hold the same characters.
fn same_text(a: &str, b: &str) -> (r: bool)
    ensures
        r == (a@ == b@),
{
    let n = a.unicode_len();
    if n != b.unicode_len() {
        return false;
    }
    let mut i: usize = 0;
    while i < n
        invariant
            i <= n,
            n == a@.len(),
            n == b@.len(),
            forall|k: int| 0 <= k < i ==> a@[k] == b@[k],
        decreases n - i,
    {
        if a.get_char(i) != b.get_char(i) {
            return false;
        }
        i = i + 1;
    }
    proof {
        assert(a@ =~= b@);
    }
    true
}

/// The first of the files supplied beside a glTF file (by name) that an external
/// buffer's URI names, if any.
pub fn find_external_buffer(names: &[&str], uri: &str) -> (r: Option<usize>)
    ensures
        match r {
            Some(i) => i < names@.len() && names@[i as int]@ == uri@ && forall|j: int|
                0 <= j < i ==> (#[trigger] names@[j])@ != uri@,
            None => forall|j: int| 0 <= j < names@.len() ==> (#[trigger] names@[j])@ != uri@,
        },
{
    let mut i: usize = 0;
    while i < names.len()
        invariant
            i <= names@.len(),
            forall|j: int| 0 <= j < i ==> (#[trigger] names@[j])@ != uri@,
        decreases names@.len() - i,
    {
        if same_text(names[i], uri) {
            return Some(i);
        }
        i = i + 1;
    }
    None
}

/// The document `gltf::Gltf::from_slice` reads from these bytes, as the loader sees
/// it (nodes with their names, mesh primitive counts and children; each scene's
/// roots; which buffers lie outside the file), or none when it refuses them: a
/// function of the bytes alone.
pub uninterp spec fn gltf_document_of(bytes: Seq<u8>) -> Option<GltfDocumentView>;

/// The bytes start a GLB header (`glTF` and at least twelve bytes) whose declared
/// length is below the header's own twelve bytes.
pub open spec fn glb_length_underflows(bytes: Seq<u8>) -> bool {
    &&& bytes.len() >= 12
    &&& bytes[0] == 0x67u8 && bytes[1] == 0x6Cu8 && bytes[2] == 0x54u8 && bytes[3] == 0x46u8
    &&& bytes[8] + bytes[9] * 0x100 + bytes[10] * 0x1_0000 + bytes[11] * 0x100_0000 < 12
}

/// Whether the bytes can be handed to the glTF reader: they do not start a GLB header
/// whose declared length is below twelve (on which the reader's length arithmetic
/// overflows).
pub fn glb_header_readable(bytes: &[u8]) -> (r: bool)
    ensures
        r == !glb_length_underflows(bytes@),
{
    if bytes.len() < 12 {
        return true;
    }
    if !(bytes[0] == 0x67u8 && bytes[1] == 0x6Cu8 && bytes[2] == 0x54u8 && bytes[3] == 0x46u8) {
        return true;
    }
    let length: u64 = bytes[8] as u64 + (bytes[9] as u64) * 0x100 + (bytes[10] as u64) * 0x1_0000 + (bytes[11] as u64)
        * 0x100_0000;
    length >= 12
}

/// What `gltf::Gltf::from_slice_without_validation` reads from these bytes of the
/// indices that validation itself follows unchecked: the number of accessors and, for
/// each mesh in order, each primitive's `POSITION` accessor index (none when the
/// primitive has no such attribute); none when the reader refuses the bytes: a
/// function of the bytes alone.
pub uninterp spec fn gltf_position_refs_of(bytes: Seq<u8>) -> Option<(usize, Seq<Seq<Option<usize>>>)>;

/// Every `POSITION` index of every mesh primitive names one of the accessors.
pub open spec fn position_refs_in_range(accessors: usize, meshes: Seq<Seq<Option<usize>>>) -> bool {
    forall|m: int, p: int|
        0 <= m < meshes.len() && 0 <= p < meshes[m].len() ==> (#[trigger] meshes[m][p] matches Some(i) ==> i
            < accessors)
}

/// The validating glTF reader returns on these bytes: they do not start a GLB header
/// whose length field underflows, and, when the unvalidated read accepts them, every
/// mesh primitive's `POSITION` accessor exists (validation looks it up unchecked).
pub open spec fn gltf_reader_safe(bytes: Seq<u8>) -> bool {
    &&& !glb_length_underflows(bytes)
    &&& match gltf_position_refs_of(bytes) {
        None => true,
        Some((n, meshes)) => position_refs_in_range(n, meshes),
    }
}

/// Reads a glTF or GLB file with `gltf::Gltf::from_slice_without_validation` and
/// lists, from its JSON (`Root::accessors`, and for each of `Root::meshes` the
/// `Primitive::attributes` entry for `POSITION`), the accessor count and each
/// primitive's position accessor index: what `gltf_position_refs_of` names, or an
/// error exactly when it names none. Bytes whose GLB length field underflows are left
/// out: the reader's arithmetic overflows on them.
#[verifier::external_body]
fn read_gltf_position_refs(bytes: &[u8]) -> (r: Result<(usize, Vec<Vec<Option<usize>>>), gltf::Error>)
    requires
        !glb_length_underflows(bytes@),
    ensures
        match r {
            Ok((n, meshes)) => gltf_position_refs_of(bytes@) == Some(
                (n, meshes@.map_values(|v: Vec<Option<usize>>| v@)),
            ),
            Err(_) => gltf_position_refs_of(bytes@) is None,
        },
{
    let root = gltf::Gltf::from_slice_without_validation(bytes)?.document.into_json();
    let position = gltf::json::validation::Checked::Valid(gltf::Semantic::Positions);
    let meshes = root.meshes.iter().map(
        |m| m.primitives.iter().map(|p| p.attributes.get(&position).map(|i| i.value())).collect(),
    ).collect();
    Ok((root.accessors.len(), meshes))
}

/// Whether every position index names one of the accessors.
fn position_refs_checked(accessors: usize, meshes: &Vec<Vec<Option<usize>>>) -> (r: bool)
    ensures
        r == position_refs_in_range(accessors, meshes@.map_values(|v: Vec<Option<usize>>| v@)),
{
    let ghost ms = meshes@.map_values(|v: Vec<Option<usize>>| v@);
    let mut m: usize = 0;
    while m < meshes.len()
        invariant
            m <= meshes@.len(),
            ms == meshes@.map_values(|v: Vec<Option<usize>>| v@),
            forall|a: int, p: int|
                0 <= a < m && 0 <= p < ms[a].len() ==> (#[trigger] ms[a][p] matches Some(i) ==> i < accessors),
        decreases meshes@.len() - m,
    {
        let prims = &meshes[m];
        assert(ms[m as int] == prims@);
        let mut p: usize = 0;
        while p < prims.len()
            invariant
                m < meshes@.len(),
                p <= prims@.len(),
                ms == meshes@.map_values(|v: Vec<Option<usize>>| v@),
                ms[m as int] == prims@,
                forall|a: int, q: int|
                    0 <= a < m && 0 <= q < ms[a].len() ==> (#[trigger] ms[a][q] matches Some(i) ==> i < accessors),
                forall|q: int| 0 <= q < p ==> (#[trigger] prims@[q] matches Some(i) ==> i < accessors),
            decreases prims@.len() - p,
        {
            if let Some(i) = prims[p] {
                if i >= accessors {
                    assert(ms[m as int][p as int] == Some(i));
                    return false;
                }
            }
            p = p + 1;
        }
        m = m + 1;
    }
    true
}

/// Whether the bytes can be handed to the validating glTF reader: they do not start a
/// GLB header whose length field underflows, and no mesh primitive's `POSITION` names a
/// missing accessor (on those inputs the reader panics instead of refusing them).
pub fn gltf_readable(bytes: &[u8]) -> (r: bool)
    ensures
        r == gltf_reader_safe(bytes@),
{
    if !glb_header_readable(bytes) {
        return false;
    }
    match read_gltf_position_refs(bytes) {
        Ok((n, meshes)) => position_refs_checked(n, &meshes),
        Err(_) => true,
    }
}

/// Reads a glTF or GLB file with `gltf::Gltf::from_slice` (which also validates it)
/// and lists, through `Document::nodes` (`Node::name`, `Node::mesh` with
/// `Mesh::primitives`, `Node::children` with `Node::index`), `Document::scenes`
/// (`Scene::nodes`) and `Document::buffers` (`Buffer::source` is a URI), what the
/// loader reads of it: the document `gltf_document_of` names, or an error exactly when
/// it names none. The accessors follow only indices that validation checked. Bytes on
/// which the reader panics are left out (`gltf_reader_safe`).
#[verifier::external_body]
fn read_gltf(bytes: &[u8]) -> (r: Result<(gltf::Gltf, GltfDocument), gltf::Error>)
    requires
        gltf_reader_safe(bytes@),
    ensures
        match r {
            Ok((_, d)) => gltf_document_of(bytes@) == Some(d@),
            Err(_) => gltf_document_of(bytes@) is None,
        },
{
    let g = gltf::Gltf::from_slice(bytes)?;
    let nodes = g.nodes().map(|n| GltfNodeDesc {
        name: n.name().map(String::from),
        mesh_primitives: n.mesh().map(|m| m.primitives().len()),
        children: n.children().map(|c| c.index()).collect(),
    }).collect();
    let scenes = g.scenes().map(|s| s.nodes().map(|n| n.index()).collect()).collect();
    let external_buffers = g.buffers().map(|b| matches!(b.source(), gltf::buffer::Source::Uri(_))).collect();
    Ok((g, GltfDocument { nodes, scenes, external_buffers }))
}

/// A parsed glTF file: the document, what the loader reads of it, and its layout.
pub struct LoadedGltf {
    pub gltf: gltf::Gltf,
    pub document: GltfDocument,
    pub plan: Vec<GltfPlanNode>,
}

/// Parses a GLB file and lays out its scenes: refused with `Parse` exactly when the
/// reader refuses the bytes; otherwise the document read and its layout, or the error
/// laying it out gives.
pub fn load_gltf(bytes: &[u8]) -> (r: Result<LoadedGltf, GltfError>)
    requires
        gltf_reader_safe(bytes@),
    ensures
        match gltf_document_of(bytes@) {
            None => r == Err::<LoadedGltf, GltfError>(GltfError::Parse),
            Some(dv) => match gltf_plan(dv) {
                Ok(p) => r matches Ok(l) && l.document@ == dv && plan_view(l.plan@) == p,
                Err(e) => r == Err::<LoadedGltf, GltfError>(e),
            },
        },
{
    let (gltf, document) = match read_gltf(bytes) {
        Ok(pair) => pair,
        Err(_) => {
            return Err(GltfError::Parse);
        },
    };
    match plan_gltf_scene(&document) {
        Ok(plan) => Ok(LoadedGltf { gltf, document, plan }),
        Err(e) => Err(e),
    }
}

/// A parsed glTF file as a forward-shaded viewer draws it: the document, what the
/// loader reads of it, the layout of its scenes and the primitives to draw in order.
pub struct LoadedPrimitives {
    pub gltf: gltf::Gltf,
    pub document: GltfDocument,
    pub plan: Vec<GltfPlanNode>,
    pub primitives: Vec<(usize, usize)>,
}

/// Parses a glTF or GLB file (external buffers allowed) and lists the primitives of
/// its scenes in drawing order: refused with `Parse` exactly when the reader refuses
/// the bytes; otherwise the document read and its primitives, or the error laying out
/// its scenes gives.
pub fn load_gltf_primitives(bytes: &[u8]) -> (r: Result<LoadedPrimitives, GltfError>)
    requires
        gltf_reader_safe(bytes@),
    ensures
        match gltf_document_of(bytes@) {
            None => r == Err::<LoadedPrimitives, GltfError>(GltfError::Parse),
            Some(dv) => match scene_layout(dv) {
                Ok(p) => r matches Ok(l) && l.document@ == dv && plan_view(l.plan@) == p && l.primitives@
                    == primitive_sources(p),
                Err(e) => r == Err::<LoadedPrimitives, GltfError>(e),
            },
        },
{
    let (gltf, document) = match read_gltf(bytes) {
        Ok(pair) => pair,
        Err(_) => {
            return Err(GltfError::Parse);
        },
    };
    match layout_gltf_scenes(&document) {
        Ok(plan) => {
            let primitives = scene_primitives(plan.as_slice());
            Ok(LoadedPrimitives { gltf, document, plan, primitives })
        },
        Err(e) => Err(e),
    }
}

/// `load_gltf` on any bytes: none exactly when the reader would panic on them
/// (`gltf_reader_safe` fails); otherwise what `load_gltf` gives.
pub fn try_load_gltf(bytes: &[u8]) -> (r: Option<Result<LoadedGltf, GltfError>>)
    ensures
        r is None <==> !gltf_reader_safe(bytes@),
        r matches Some(x) ==> match gltf_document_of(bytes@) {
            None => x == Err::<LoadedGltf, GltfError>(GltfError::Parse),
            Some(dv) => match gltf_plan(dv) {
                Ok(p) => x matches Ok(l) && l.document@ == dv && plan_view(l.plan@) == p,
                Err(e) => x == Err::<LoadedGltf, GltfError>(e),
            },
        },
{
    if gltf_readable(bytes) {
        Some(load_gltf(bytes))
    } else {
        None
    }
}

/// `load_gltf_primitives` on any bytes: none exactly when the reader would panic on
/// them (`gltf_reader_safe` fails); otherwise what `load_gltf_primitives` gives.
pub fn try_load_gltf_primitives(bytes: &[u8]) -> (r: Option<Result<LoadedPrimitives, GltfError>>)
    ensures
        r is None <==> !gltf_reader_safe(bytes@),
        r matches Some(x) ==> match gltf_document_of(bytes@) {
            None => x == Err::<LoadedPrimitives, GltfError>(GltfError::Parse),
            Some(dv) => match scene_layout(dv) {
                Ok(p) => x matches Ok(l) && l.document@ == dv && plan_view(l.plan@) == p && l.primitives@
                    == primitive_sources(p),
                Err(e) => x == Err::<LoadedPrimitives, GltfError>(e),
            },
        },
{
    if gltf_readable(bytes) {
        Some(load_gltf_primitives(bytes))
    } else {
        None
    }
}

/// Why a forward-shaded viewer cannot draw a primitive.
#[derive(Debug, Clone, Copy, PartialEq, Eq, Structural)]
pub enum PrimitiveDataError {
    NoNormals,
    NoIndices,
}

/// Whether a primitive is drawn, given which of its attributes it has: one without
/// positions is skipped (`Ok(false)`); one with positions needs normals, then indices.
pub fn forward_primitive_drawn(has_positions: bool, has_normals: bool, has_indices: bool) -> (r: Result<
    bool,
    PrimitiveDataError,
>)
    ensures
        r == (if !has_positions {
            Ok::<bool, PrimitiveDataError>(false)
        } else if !has_normals {
            Err(PrimitiveDataError::NoNormals)
        } else if !has_indices {
            Err(PrimitiveDataError::NoIndices)
        } else {
            Ok(true)
        }),
{
    if !has_positions {
        Ok(false)
    } else if !has_normals {
        Err(PrimitiveDataError::NoNormals)
    } else if !has_indices {
        Err(PrimitiveDataError::NoIndices)
    } else {
        Ok(true)
    }
}

/// Lays out the scenes of a document: refused when a buffer lies outside the file;
/// otherwise each scene's root subtrees in order, each node followed by its
/// primitives' nodes and then its children's subtrees; refused when a node refers to
/// a missing node or the hierarchy is deeper than the number of nodes (a cycle).
pub fn plan_gltf_scene(doc: &GltfDocument) -> (r: Result<Vec<GltfPlanNode>, GltfError>)
    ensures
        match r {
            Ok(plan) => gltf_plan(doc@) == Ok::<Seq<GltfPlanNodeView>, GltfError>(plan_view(plan@)),
            Err(e) => gltf_plan(doc@) == Err::<Seq<GltfPlanNodeView>, GltfError>(e),
        },
{
    let mut b: usize = 0;
    while b < doc.external_buffers.len()
        invariant
            b <= doc.external_buffers@.len(),
            forall|i: int| 0 <= i < b ==> !#[trigger] doc.external_buffers@[i],
        decreases doc.external_buffers@.len() - b,
    {
        if doc.external_buffers[b] {
            assert(doc@.external_buffers[b as int]);
            return Err(GltfError::ExternalBuffer);
        }
        b = b + 1;
    }
    layout_gltf_scenes(doc)
}

/// Lays out the scenes of a document, whatever its buffers: each scene's root subtrees
/// in order, each node followed by its primitives' nodes and then its children's
/// subtrees; refused when a node refers to a missing node or the hierarchy is deeper
/// than the number of nodes (a cycle).
pub fn layout_gltf_scenes(doc: &GltfDocument) -> (r: Result<Vec<GltfPlanNode>, GltfError>)
    ensures
        match r {
            Ok(plan) => scene_layout(doc@) == Ok::<Seq<GltfPlanNodeView>, GltfError>(plan_view(plan@)),
            Err(e) => scene_layout(doc@) == Err::<Seq<GltfPlanNodeView>, GltfError>(e),
        },
{
    let mut roots: Vec<usize> = Vec::new();
    let mut s: usize = 0;
    while s < doc.scenes.len()
        invariant
            s <= doc.scenes@.len(),
            roots@ == all_roots(doc@.scenes.subrange(0, s as int)),
        decreases doc.scenes@.len() - s,
    {
        proof {
            assert(doc@.scenes.subrange(0, s + 1).drop_last() =~= doc@.scenes.subrange(0, s as int));
        }
        let scene = &doc.scenes[s];
        let mut k: usize = 0;
        let ghost before = roots@;
        while k < scene.len()
            invariant
                k <= scene@.len(),
                roots@ == before + scene@.subrange(0, k as int),
            decreases scene@.len() - k,
        {
            roots.push(scene[k]);
            k = k + 1;
            proof {
                assert(roots@ =~= before + scene@.subrange(0, k as int));
            }
        }
        proof {
            assert(scene@.subrange(0, scene@.len() as int) =~= scene@);
        }
        s = s + 1;
    }
    proof {
        assert(doc@.scenes.subrange(0, doc@.scenes.len() as int) =~= doc@.scenes);
    }
    let mut out: Vec<GltfPlanNode> = Vec::new();
    let fuel = doc.nodes.len();
    match add_forest(doc, &roots, fuel, &mut out) {
        Some(_) => {
            proof {
                assert(plan_view(out@) =~= Seq::<GltfPlanNodeView>::empty() + plan_view(out@));
            }
            Ok(out)
        },
        None => Err(GltfError::InvalidNodeHierarchy),
    }
}

/// Appends the subtrees of `roots`, returning the index each landed at; none, leaving
/// `out` in any state, when the spec's layout fails.
fn add_forest(doc: &GltfDocument, roots: &Vec<usize>, fuel: usize, out: &mut Vec<GltfPlanNode>) -> (r: Option<
    Vec<usize>,
>)
    ensures
        match forest(doc@.nodes, roots@, 0, old(out)@.len() as int, fuel as nat) {
            None => r is None,
            Some((entries, starts)) => r matches Some(st) && st@ == starts && plan_view(final(out)@)
                == plan_view(old(out)@) + entries,
        },
    decreases fuel, 1int,
{
    let ghost base0 = out@.len() as int;
    let ghost prefix = plan_view(out@);
    let mut starts: Vec<usize> = Vec::new();
    let mut k: usize = 0;
    let ghost mut done: Seq<GltfPlanNodeView> = Seq::empty();
    while k < roots.len()
        invariant
            k <= roots@.len(),
            base0 == old(out)@.len(),
            plan_view(out@) == prefix + done,
            out@.len() == base0 + done.len(),
            forest(doc@.nodes, roots@, 0, base0, fuel as nat) == match forest(
                doc@.nodes,
                roots@,
                k as int,
                out@.len() as int,
                fuel as nat,
            ) {
                None => None,
                Some((e, st)) => Some((done + e, starts@ + st)),
            },
        decreases roots@.len() - k,
    {
        let start = out.len();
        let ghost before = plan_view(out@);
        proof {
            assert(forest(doc@.nodes, roots@, 0, base0, fuel as nat) == match forest(
                doc@.nodes,
                roots@,
                k as int,
                start as int,
                fuel as nat,
            ) {
                None => None,
                Some((e, st)) => Some((done + e, starts@ + st)),
            });
        }
        if !add_subtree(doc, roots[k], fuel, out) {
            proof {
                assert(forest(doc@.nodes, roots@, k as int, start as int, fuel as nat) is None);
            }
            return None;
        }
        proof {
            let e = subtree(doc@.nodes, roots@[k as int] as int, start as int, fuel as nat)->0;
            assert(plan_view(out@) == before + e);
            done = done + e;
            assert(plan_view(out@) =~= prefix + done);
            assert(plan_view(out@).len() == out@.len());
        }
        starts.push(start);
        k = k + 1;
        proof {
            let e = subtree(doc@.nodes, roots@[k - 1] as int, start as int, fuel as nat)->0;
            match forest(doc@.nodes, roots@, k as int, out@.len() as int, fuel as nat) {
                None => {},
                Some((rest, st)) => {
                    assert(done + rest =~= (done.subrange(0, done.len() - e.len())) + (e + rest));
                    assert(starts@ + st =~= starts@.drop_last() + (seq![start] + st));
                },
            }
        }
    }
    proof {
        assert(done + Seq::<GltfPlanNodeView>::empty() =~= done);
        assert(starts@ + Seq::<usize>::empty() =~= starts@);
    }
    Some(starts)
}

/// The name of primitive `primitive`'s node of a node named `base`.
fn primitive_node_name(base: &String, primitive: usize) -> (r: String)
    ensures
        r@ == primitive_name(base@, primitive as nat),
{
    let digits = decimal_string(primitive as u64);
    if base.as_str().is_empty() {
        let mut s = "primitive#".to_owned();
        s.append(digits.as_str());
        s
    } else {
        let mut s = base.clone();
        s.append("#prim");
        s.append(digits.as_str());
        s
    }
}

/// Appends the subtree of glTF node `n`; false, leaving `out` in any state, when the
/// spec's layout fails.
fn add_subtree(doc: &GltfDocument, n: usize, fuel: usize, out: &mut Vec<GltfPlanNode>) -> (r: bool)
    ensures
        match subtree(doc@.nodes, n as int, old(out)@.len() as int, fuel as nat) {
            None => !r,
            Some(e) => r && plan_view(final(out)@) == plan_view(old(out)@) + e,
        },
    decreases fuel, 0int,
{
    if fuel == 0 || n >= doc.nodes.len() {
        return false;
    }
    let ghost prefix = plan_view(out@);
    let this_index = out.len();
    let d = &doc.nodes[n];
    let base_name_s: String = match &d.name {
        Some(s) => s.clone(),
        None => String::new(),
    };
    proof {
        assert(base_name_s@ == base_name(d@));
    }
    out.push(GltfPlanNode { name: base_name_s.clone(), children: Vec::new(), source: GltfNodeSource::Node { node: n } });
    let pc: usize = match d.mesh_primitives {
        Some(k) => k,
        None => 0,
    };
    let mut children: Vec<usize> = Vec::new();
    let mut p: usize = 0;
    while p < pc
        invariant
            p <= pc,
            pc == primitive_count(d@),
            d@ == doc@.nodes[n as int],
            base_name_s@ == base_name(d@),
            out@.len() == this_index + 1 + p,
            this_index == prefix.len(),
            plan_view(out@).subrange(0, this_index as int) == prefix,
            children@ == Seq::new(p as nat, |q: int| (this_index + 1 + q) as usize),
            forall|q: int| 0 <= q < p ==> #[trigger] plan_view(out@)[this_index + 1 + q] == primitive_entry(d@, n as int, q),
        decreases pc - p,
    {
        let idx = out.len();
        let name = primitive_node_name(&base_name_s, p);
        let ghost before = plan_view(out@);
        out.push(GltfPlanNode { name, children: Vec::new(), source: GltfNodeSource::Primitive { node: n, primitive: p } });
        children.push(idx);
        proof {
            assert(plan_view(out@) =~= before.push(primitive_entry(d@, n as int, p as int)));
            assert(plan_view(out@).subrange(0, this_index as int) =~= before.subrange(0, this_index as int));
        }
        p = p + 1;
        proof {
            assert(children@ =~= Seq::new(p as nat, |q: int| (this_index + 1 + q) as usize));
        }
    }
    let ghost after_prims = plan_view(out@);
    let sub = add_forest(doc, &d.children, fuel - 1, out);
    let starts = match sub {
        Some(st) => st,
        None => {
            return false;
        },
    };
    let ghost prim_children = children@;
    let mut j: usize = 0;
    while j < starts.len()
        invariant
            j <= starts@.len(),
            children@ == prim_children + starts@.subrange(0, j as int),
        decreases starts@.len() - j,
    {
        children.push(starts[j]);
        j = j + 1;
        proof {
            assert(children@ =~= prim_children + starts@.subrange(0, j as int));
        }
    }
    proof {
        assert(starts@.subrange(0, starts@.len() as int) =~= starts@);
    }
    proof {
        assert(plan_view(out@).len() == out@.len());
        assert(after_prims.len() == this_index + 1 + pc);
    }
    let ghost before_set = plan_view(out@);
    out.set(this_index, GltfPlanNode { name: base_name_s, children, source: GltfNodeSource::Node { node: n } });
    proof {
        let pair = forest(doc@.nodes, d.children@, 0, (this_index + 1 + pc) as int, (fuel - 1) as nat)->0;
        let entries = pair.0;
        let head = GltfPlanNodeView {
            name: base_name(d@),
            children: Seq::new(pc as nat, |q: int| (this_index + 1 + q) as usize) + starts@,
            source: GltfNodeSource::Node { node: n },
        };
        let prims = Seq::new(pc as nat, |q: int| primitive_entry(d@, n as int, q));
        let mid = prefix + seq![after_prims[this_index as int]] + prims;
        assert forall|i: int| 0 <= i < after_prims.len() implies #[trigger] after_prims[i] == mid[i] by {
            if i < this_index {
                assert(after_prims.subrange(0, this_index as int)[i] == after_prims[i]);
            } else if i > this_index {
                let q = i - this_index - 1;
                assert(after_prims[this_index + 1 + q] == primitive_entry(d@, n as int, q));
            }
        }
        assert(after_prims =~= mid);
        assert(before_set == after_prims + entries);
        assert(plan_view(out@) =~= before_set.update(this_index as int, head));
        assert(plan_view(out@) =~= prefix + (seq![head] + prims + entries));
    }
    true
}

} // verus!

verus! {

/// Node `i` is listed among the children of some node of `nodes`.
pub open spec fn listed_as_child(nodes: Seq<GltfPlanNode>, i: int) -> bool {
    exists|j: int, k: int|
        0 <= j < nodes.len() && 0 <= k < nodes[j].children@.len() && #[trigger] nodes[j].children@[k] == i
}

/// Node `i` is listed among the first `k` children of node `j`, or among all children
/// of an earlier node.
spec fn listed_before(nodes: Seq<GltfPlanNode>, i: int, j: int, k: int) -> bool {
    (exists|jj: int, kk: int|
        0 <= jj < j && 0 <= kk < nodes[jj].children@.len() && #[trigger] nodes[jj].children@[kk] == i)
        || (exists|kk: int| 0 <= kk < k && #[trigger] nodes[j].children@[kk] == i)
}

/// The nodes of the laid-out scene that are nobody's child, in order: the entities a
/// spawned scene is rooted at.
pub fn scene_root_nodes(nodes: &Vec<GltfPlanNode>) -> (r: Vec<usize>)
    ensures
        forall|a: int, b: int| 0 <= a < b < r@.len() ==> #[trigger] r@[a] < #[trigger] r@[b],
        forall|i: usize| r@.contains(i) <==> (i < nodes@.len() && !listed_as_child(nodes@, i as int)),
{
    let n = nodes.len();
    let mut is_child: Vec<bool> = Vec::new();
    let mut i: usize = 0;
    while i < n
        invariant
            i <= n,
            is_child@.len() == i,
            forall|x: int| 0 <= x < i ==> !#[trigger] is_child@[x],
        decreases n - i,
    {
        is_child.push(false);
        i = i + 1;
    }
    let mut j: usize = 0;
    while j < n
        invariant
            j <= n,
            n == nodes@.len(),
            is_child@.len() == n,
            forall|x: int| 0 <= x < n ==> (#[trigger] is_child@[x] <==> listed_before(nodes@, x, j as int, 0)),
        decreases n - j,
    {
        let children = &nodes[j].children;
        let mut k: usize = 0;
        while k < children.len()
            invariant
                j < n,
                n == nodes@.len(),
                children == nodes@[j as int].children,
                k <= children@.len(),
                is_child@.len() == n,
                forall|x: int| 0 <= x < n ==> (#[trigger] is_child@[x] <==> listed_before(nodes@, x, j as int, k as int)),
            decreases children@.len() - k,
        {
            let c = children[k];
            if c < n {
                is_child.set(c, true);
            }
            proof {
                assert forall|x: int| 0 <= x < n implies (#[trigger] is_child@[x] <==> listed_before(
                    nodes@,
                    x,
                    j as int,
                    k + 1,
                )) by {
                    if listed_before(nodes@, x, j as int, k + 1) && !listed_before(nodes@, x, j as int, k as int) {
                        assert(nodes@[j as int].children@[k as int] == x);
                    }
                    if listed_before(nodes@, x, j as int, k as int) {
                        if exists|kk: int| 0 <= kk < k && #[trigger] nodes@[j as int].children@[kk] == x {
                            let kk = choose|kk: int| 0 <= kk < k && #[trigger] nodes@[j as int].children@[kk] == x;
                            assert(0 <= kk < k + 1 && nodes@[j as int].children@[kk] == x);
                        }
                    }
                }
            }
            k = k + 1;
        }
        proof {
            assert forall|x: int| 0 <= x < n implies (#[trigger] is_child@[x] <==> listed_before(
                nodes@,
                x,
                j + 1,
                0,
            )) by {
                if listed_before(nodes@, x, j as int, children@.len() as int) {
                    if exists|kk: int| 0 <= kk < children@.len() && #[trigger] nodes@[j as int].children@[kk] == x {
                        let kk = choose|kk: int| 0 <= kk < children@.len() && #[trigger] nodes@[j as int].children@[kk] == x;
                        assert(0 <= j < j + 1 && 0 <= kk < nodes@[j as int].children@.len());
                    } else {
                        let (jj, kk) = choose|jj: int, kk: int|
                            0 <= jj < j && 0 <= kk < nodes@[jj].children@.len() && #[trigger] nodes@[jj].children@[kk] == x;
                        assert(0 <= jj < j + 1);
                    }
                }
                if listed_before(nodes@, x, j + 1, 0) {
                    let (jj, kk) = choose|jj: int, kk: int|
                        0 <= jj < j + 1 && 0 <= kk < nodes@[jj].children@.len() && #[trigger] nodes@[jj].children@[kk] == x;
                    if jj < j {
                        assert(listed_before(nodes@, x, j as int, children@.len() as int));
                    } else {
                        assert(nodes@[j as int].children@[kk] == x);
                    }
                }
            }
        }
        j = j + 1;
    }
    let mut roots: Vec<usize> = Vec::new();
    let mut i: usize = 0;
    while i < n
        invariant
            i <= n,
            n == nodes@.len(),
            is_child@.len() == n,
            forall|x: int| 0 <= x < n ==> (#[trigger] is_child@[x] <==> listed_as_child(nodes@, x)),
            forall|a: int| 0 <= a < roots@.len() ==> #[trigger] roots@[a] < i,
            forall|a: int, b: int| 0 <= a < b < roots@.len() ==> #[trigger] roots@[a] < #[trigger] roots@[b],
            forall|v: usize| roots@.contains(v) <==> (v < i && !listed_as_child(nodes@, v as int)),
        decreases n - i,
    {
        let ghost old_roots = roots@;
        if !is_child[i] {
            roots.push(i);
        }
        proof {
            assert forall|v: usize| roots@.contains(v) <==> (v < i + 1 && !listed_as_child(nodes@, v as int)) by {
                if roots@.contains(v) {
                    let a = choose|a: int| 0 <= a < roots@.len() && roots@[a] == v;
                    if a < old_roots.len() {
                        assert(old_roots[a] == v);
                    }
                }
                if v < i + 1 && !listed_as_child(nodes@, v as int) {
                    if v < i {
                        assert(old_roots.contains(v));
                        let a = choose|a: int| 0 <= a < old_roots.len() && old_roots[a] == v;
                        assert(roots@[a] == v);
                    } else {
                        assert(roots@[roots@.len() - 1] == v);
                    }
                }
            }
        }
        i = i + 1;
    }
    roots
}

} // verus!

verus! {

/// Every child index of the entries (the first at index `base`) names a later entry
/// among them.
pub open spec fn children_point_forward(entries: Seq<GltfPlanNodeView>, base: int) -> bool {
    forall|j: int, k: int|
        0 <= j < entries.len() && 0 <= k < entries[j].children.len() ==> base + j < #[trigger] entries[j].children[k]
            < base + entries.len()
}

proof fn lemma_subtree_forward(nodes: Seq<GltfNodeView>, n: int, base: int, fuel: nat)
    requires
        0 <= base,
        subtree(nodes, n, base, fuel) is Some,
        base + subtree(nodes, n, base, fuel)->0.len() <= usize::MAX + 1,
    ensures
        children_point_forward(subtree(nodes, n, base, fuel)->0, base),
        subtree(nodes, n, base, fuel)->0.len() >= 1,
    decreases fuel, 0int, 0int,
{
    let d = nodes[n];
    let pc = primitive_count(d);
    let f = forest(nodes, d.children, 0, base + 1 + pc, (fuel - 1) as nat);
    let pair = f->0;
    let entries = pair.0;
    let starts = pair.1;
    let e = subtree(nodes, n, base, fuel)->0;
    let prims = Seq::new(pc, |p: int| primitive_entry(d, n, p));
    assert(e.len() == 1 + pc + entries.len());
    lemma_forest_forward(nodes, d.children, 0, base + 1 + pc, (fuel - 1) as nat);
    assert forall|j: int, k: int| 0 <= j < e.len() && 0 <= k < e[j].children.len() implies base + j
        < #[trigger] e[j].children[k] < base + e.len() by {
        if j == 0 {
            let head_children = Seq::new(pc, |p: int| (base + 1 + p) as usize) + starts;
            assert(e[0].children == head_children);
            if k < pc {
                assert(head_children[k] == (base + 1 + k) as usize);
                assert(base + 1 + k <= usize::MAX);
            } else {
                assert(head_children[k] == starts[k - pc]);
                assert(starts == forest_starts(nodes, d.children, 0, base + 1 + pc, (fuel - 1) as nat));
                assert(base + 1 + pc <= starts[k - pc]);
            }
        } else if j <= pc {
            assert(e[j] == prims[j - 1]);
        } else {
            let i = j - 1 - pc;
            assert(e[j] == entries[i]);
            assert(entries[i].children[k] == e[j].children[k]);
        }
    }
}

/// The entries of a successful forest layout.
pub open spec fn forest_entries(nodes: Seq<GltfNodeView>, roots: Seq<usize>, k: int, base: int, fuel: nat) -> Seq<
    GltfPlanNodeView,
> {
    let pair = forest(nodes, roots, k, base, fuel)->0;
    pair.0
}

/// The indices the subtrees of a successful forest layout start at.
pub open spec fn forest_starts(nodes: Seq<GltfNodeView>, roots: Seq<usize>, k: int, base: int, fuel: nat) -> Seq<usize> {
    let pair = forest(nodes, roots, k, base, fuel)->0;
    pair.1
}

proof fn lemma_forest_forward(nodes: Seq<GltfNodeView>, roots: Seq<usize>, k: int, base: int, fuel: nat)
    requires
        0 <= base,
        0 <= k,
        forest(nodes, roots, k, base, fuel) is Some,
        base + forest_entries(nodes, roots, k, base, fuel).len() <= usize::MAX + 1,
    ensures
        children_point_forward(forest_entries(nodes, roots, k, base, fuel), base),
        forall|i: int|
            0 <= i < forest_starts(nodes, roots, k, base, fuel).len() ==> base <= #[trigger] forest_starts(nodes, roots, k, base, fuel)[i] < base + forest_entries(nodes, roots, k, base, fuel).len(),
    decreases fuel, 1int, roots.len() - k,
{
    if k < roots.len() {
        let sub = subtree(nodes, roots[k] as int, base, fuel)->0;
        let next = forest(nodes, roots, k + 1, base + sub.len(), fuel)->0;
        let rest = next.0;
        let st = next.1;
        let e = forest_entries(nodes, roots, k, base, fuel);
        let starts = forest_starts(nodes, roots, k, base, fuel);
        assert(e == sub + rest);
        assert(starts == seq![base as usize] + st);
        lemma_subtree_forward(nodes, roots[k] as int, base, fuel);
        lemma_forest_forward(nodes, roots, k + 1, base + sub.len(), fuel);
        assert forall|j: int, c: int| 0 <= j < e.len() && 0 <= c < e[j].children.len() implies base + j
            < #[trigger] e[j].children[c] < base + e.len() by {
            if j < sub.len() {
                assert(e[j] == sub[j]);
                assert(sub[j].children[c] == e[j].children[c]);
            } else {
                assert(e[j] == rest[j - sub.len()]);
                assert(rest[j - sub.len()].children[c] == e[j].children[c]);
            }
        }
        assert(st == forest_starts(nodes, roots, k + 1, base + sub.len(), fuel));
        assert(rest == forest_entries(nodes, roots, k + 1, base + sub.len(), fuel));
        assert forall|i: int| 0 <= i < starts.len() implies base <= #[trigger] starts[i] < base + e.len() by {
            if i > 0 {
                assert(starts[i] == st[i - 1]);
                assert(base + sub.len() <= st[i - 1] < base + sub.len() + rest.len());
            } else {
                assert(starts[0] == base as usize);
                assert(base <= usize::MAX);
            }
        }
    }
}

/// In a laid-out scene every node's children come after it and within the scene, so
/// walking a node's descendants ends.
pub proof fn lemma_plan_children_point_forward(doc: GltfDocumentView, plan: Seq<GltfPlanNodeView>)
    requires
        gltf_plan(doc) == Ok::<Seq<GltfPlanNodeView>, GltfError>(plan),
        plan.len() <= usize::MAX,
    ensures
        children_point_forward(plan, 0),
{
    lemma_forest_forward(doc.nodes, all_roots(doc.scenes), 0, 0, doc.nodes.len());
}

} // verus!
