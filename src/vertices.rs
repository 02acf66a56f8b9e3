//! Vertex meshes: an immutable, reference-counted mesh, and the builder
//! that stages one before it is detached as a finished mesh.
use vstd::prelude::*;
use crate::geometry::{bounds_of, is_bounds_of, Color, Point, Rect, Scalar};
use crate::handle::{Handle, RCHandle};

verus! {

/// How the vertices are joined into triangles.
#[derive(Clone, Copy, Debug, PartialEq, Eq, Structural)]
pub enum VertexMode {
    Triangles,
    TriangleStrip,
    TriangleFan,
}

impl VertexMode {
    /// The native integer tag of the variant.
    pub open spec fn spec_tag(self) -> u32 {
        match self {
            VertexMode::Triangles => 0,
            VertexMode::TriangleStrip => 1,
            VertexMode::TriangleFan => 2,
        }
    }

    /// The native integer tag of the variant.
    pub fn tag(self) -> (r: u32)
        ensures
            r == self.spec_tag(),
    {
        match self {
            VertexMode::Triangles => 0,
            VertexMode::TriangleStrip => 1,
            VertexMode::TriangleFan => 2,
        }
    }

    /// The variant whose native tag is `t`, if any.
    pub fn from_tag(t: u32) -> (r: Option<VertexMode>)
        ensures
            match r {
                Some(m) => m.spec_tag() == t,
                None => t > 2,
            },
    {
        if t == 0 {
            Some(VertexMode::Triangles)
        } else if t == 1 {
            Some(VertexMode::TriangleStrip)
        } else if t == 2 {
            Some(VertexMode::TriangleFan)
        } else {
            None
        }
    }
}

/// The type of a custom per-vertex attribute.
#[derive(Clone, Copy, Debug, PartialEq, Eq, Structural)]
pub enum AttributeType {
    Float,
    Float2,
    Float3,
    Float4,
    Byte4UNorm,
}

/// A custom per-vertex attribute, laid out as the native one.
#[derive(Clone, Copy, Debug, PartialEq, Eq, Structural)]
pub struct Attribute {
    pub tp: AttributeType,
}

impl Attribute {
    pub fn new(tp: AttributeType) -> (r: Self)
        ensures
            r.tp == tp,
    {
        Self { tp }
    }

    pub open spec fn spec_channel_count(self) -> nat {
        match self.tp {
            AttributeType::Float => 1,
            AttributeType::Float2 => 2,
            AttributeType::Float3 => 3,
            AttributeType::Float4 => 4,
            AttributeType::Byte4UNorm => 4,
        }
    }

    /// The number of channels the attribute carries.
    pub fn channel_count(self) -> (r: usize)
        ensures
            r == self.spec_channel_count(),
    {
        match self.tp {
            AttributeType::Float => 1,
            AttributeType::Float2 => 2,
            AttributeType::Float3 => 3,
            AttributeType::Float4 => 4,
            AttributeType::Byte4UNorm => 4,
        }
    }

    /// The bytes that one vertex spends on the attribute: four per float
    /// channel, one per byte channel.
    pub fn bytes_per_vertex(self) -> (r: usize)
        ensures
            r == match self.tp {
                AttributeType::Byte4UNorm => self.spec_channel_count(),
                _ => 4 * self.spec_channel_count(),
            },
    {
        match self.tp {
            AttributeType::Float => 4,
            AttributeType::Float2 => 8,
            AttributeType::Float3 => 12,
            AttributeType::Float4 => 16,
            AttributeType::Byte4UNorm => 4,
        }
    }
}

impl Default for Attribute {
    fn default() -> (r: Self)
        ensures
            r.tp == AttributeType::Float,
    {
        Attribute::new(AttributeType::Float)
    }
}

/// The largest vertex or index count that the engine takes.
pub const MAX_COUNT: usize = 0x7fff_ffff;

/// The largest number of custom attributes a mesh may carry.
pub const MAX_CUSTOM_ATTRIBUTES: usize = 8;

/// What a mesh holds.
pub struct VerticesModel {
    pub unique_id: u32,
    pub mode: VertexMode,
    pub bounds: Rect,
    pub positions: Seq<Point>,
    pub texs: Option<Seq<Point>>,
    pub colors: Option<Seq<Color>>,
    pub indices: Option<Seq<u16>>,
}

impl VerticesModel {
    /// The arrays agree in length, counts fit the engine, present index
    /// arrays are not empty, and the bounds are those of the positions.
    pub open spec fn wf(self) -> bool {
        &&& self.positions.len() <= MAX_COUNT
        &&& (self.texs matches Some(t) ==> t.len() == self.positions.len())
        &&& (self.colors matches Some(c) ==> c.len() == self.positions.len())
        &&& (self.indices matches Some(i) ==> 0 < i.len() <= MAX_COUNT)
        &&& is_bounds_of(self.positions, self.bounds)
    }

    /// The same mesh content, whatever its identifier: the equality that a
    /// copy or a decoded mesh keeps.
    pub open spec fn same_content(self, o: VerticesModel) -> bool {
        &&& self.mode == o.mode
        &&& self.bounds == o.bounds
        &&& self.positions == o.positions
        &&& self.texs == o.texs
        &&& self.colors == o.colors
        &&& self.indices == o.indices
    }

    pub open spec fn spec_index_count(self) -> nat {
        match self.indices {
            Some(i) => i.len(),
            None => 0,
        }
    }
}

/// The index array a mesh keeps of the one it was given: none for none and
/// for an empty one.
pub open spec fn kept_indices(indices: Option<Seq<u16>>) -> Option<Seq<u16>> {
    match indices {
        Some(i) => if i.len() == 0 { None } else { Some(i) },
        None => None,
    }
}

/// A copy of a slice.
pub fn copy_of<T: Copy>(s: &[T]) -> (r: Vec<T>)
    ensures
        r@ == s@,
{
    let mut r: Vec<T> = Vec::new();
    let mut i: usize = 0;
    while i < s.len()
        invariant
            i <= s@.len(),
            r@ == s@.take(i as int),
        decreases s@.len() - i,
    {
        r.push(s[i]);
        i = i + 1;
        assert(r@ == s@.take(i as int));
    }
    assert(s@.take(s@.len() as int) == s@);
    r
}

/// A vector of `n` copies of `x`.
pub fn filled<T: Copy>(x: T, n: usize) -> (r: Vec<T>)
    ensures
        r@ == Seq::new(n as nat, |i: int| x),
{
    let mut r: Vec<T> = Vec::new();
    let mut i: usize = 0;
    while i < n
        invariant
            i <= n,
            r@ == Seq::new(i as nat, |k: int| x),
        decreases n - i,
    {
        r.push(x);
        i = i + 1;
        assert(r@ == Seq::new(i as nat, |k: int| x));
    }
    r
}

/// An immutable mesh, shared by reference counting in the engine.
pub type Vertices = RCHandle<SkVertices>;

/// The native mesh object.
pub struct SkVertices {
    unique_id: u32,
    mode: VertexMode,
    bounds: Rect,
    positions: Vec<Point>,
    texs: Option<Vec<Point>>,
    colors: Option<Vec<Color>>,
    indices: Option<Vec<u16>>,
}

pub open spec fn opt_view<T>(o: Option<Vec<T>>) -> Option<Seq<T>> {
    match o {
        Some(v) => Some(v@),
        None => None,
    }
}

impl View for SkVertices {
    type V = VerticesModel;

    closed spec fn view(&self) -> VerticesModel {
        VerticesModel {
            unique_id: self.unique_id,
            mode: self.mode,
            bounds: self.bounds,
            positions: self.positions@,
            texs: opt_view(self.texs),
            colors: opt_view(self.colors),
            indices: opt_view(self.indices),
        }
    }
}

impl RCHandle<SkVertices> {
    /// Assembles a mesh from arrays that already agree; the bounds are
    /// computed from the positions.
    pub(crate) fn from_parts(
        unique_id: u32,
        mode: VertexMode,
        positions: Vec<Point>,
        texs: Option<Vec<Point>>,
        colors: Option<Vec<Color>>,
        indices: Option<Vec<u16>>,
    ) -> (r: Vertices)
        requires
            positions@.len() <= MAX_COUNT,
            texs matches Some(t) ==> t@.len() == positions@.len(),
            colors matches Some(c) ==> c@.len() == positions@.len(),
            indices matches Some(i) ==> 0 < i@.len() <= MAX_COUNT,
        ensures
            r@.wf(),
            r@.unique_id == unique_id,
            r@.mode == mode,
            r@.positions == positions@,
            r@.texs == opt_view(texs),
            r@.colors == opt_view(colors),
            r@.indices == opt_view(indices),
    {
        let bounds = bounds_of(positions.as_slice());
        RCHandle { native: SkVertices { unique_id, mode, bounds, positions, texs, colors, indices } }
    }

    /// A mesh that copies the given arrays. Texture coordinates and colors
    /// are one per vertex; an index array that is absent or empty leaves the
    /// mesh without indices. `unique_id` is the identifier that the engine
    /// hands to each new mesh.
    pub fn new_copy(
        mode: VertexMode,
        positions: &[Point],
        texs: &[Point],
        colors: &[Color],
        indices: Option<&[u16]>,
        unique_id: u32,
    ) -> (r: Vertices)
        requires
            texs@.len() == positions@.len(),
            colors@.len() == positions@.len(),
            positions@.len() <= MAX_COUNT,
            indices matches Some(i) ==> i@.len() <= MAX_COUNT,
        ensures
            r@.wf(),
            r@.unique_id == unique_id,
            r@.mode == mode,
            r@.positions == positions@,
            r@.texs == Some(texs@),
            r@.colors == Some(colors@),
            r@.indices == kept_indices(
                match indices {
                    Some(i) => Some(i@),
                    None => None,
                },
            ),
    {
        let kept: Option<Vec<u16>> = match indices {
            Some(i) => if i.len() == 0 { None } else { Some(copy_of(i)) },
            None => None,
        };
        Vertices::from_parts(
            unique_id,
            mode,
            copy_of(positions),
            Some(copy_of(texs)),
            Some(copy_of(colors)),
            kept,
        )
    }

    pub fn unique_id(&self) -> (r: u32)
        ensures
            r == self@.unique_id,
    {
        self.native.unique_id
    }

    pub fn mode(&self) -> (r: VertexMode)
        ensures
            r == self@.mode,
    {
        self.native.mode
    }

    pub fn bounds(&self) -> (r: &Rect)
        ensures
            *r == self@.bounds,
    {
        &self.native.bounds
    }

    pub fn has_colors(&self) -> (r: bool)
        ensures
            r == self@.colors.is_some(),
    {
        self.colors().is_some()
    }

    pub fn has_tex_coords(&self) -> (r: bool)
        ensures
            r == self@.texs.is_some(),
    {
        self.tex_coords().is_some()
    }

    /// Meshes no longer carry bones.
    pub fn has_bones(&self) -> (r: bool)
        ensures
            !r,
    {
        false
    }

    pub fn has_indices(&self) -> (r: bool)
        ensures
            r == self@.indices.is_some(),
    {
        self.indices().is_some()
    }

    pub fn vertex_count(&self) -> (r: usize)
        ensures
            r == self@.positions.len(),
    {
        self.native.positions.len()
    }

    pub fn index_count(&self) -> (r: usize)
        ensures
            r == self@.spec_index_count(),
    {
        match &self.native.indices {
            Some(i) => i.len(),
            None => 0,
        }
    }

    pub fn positions(&self) -> (r: &[Point])
        ensures
            r@ == self@.positions,
    {
        self.native.positions.as_slice()
    }

    pub fn tex_coords(&self) -> (r: Option<&[Point]>)
        ensures
            match r {
                Some(t) => self@.texs == Some(t@),
                None => self@.texs.is_none(),
            },
    {
        match &self.native.texs {
            Some(t) => Some(t.as_slice()),
            None => None,
        }
    }

    pub fn colors(&self) -> (r: Option<&[Color]>)
        ensures
            match r {
                Some(c) => self@.colors == Some(c@),
                None => self@.colors.is_none(),
            },
    {
        match &self.native.colors {
            Some(c) => Some(c.as_slice()),
            None => None,
        }
    }

    /// Meshes no longer carry bones.
    pub fn bone_indices(&self) -> (r: Option<&[[u32; 4]]>)
        ensures
            r.is_none(),
    {
        None
    }

    /// Meshes no longer carry bones.
    pub fn bone_weights(&self) -> (r: Option<&[[u32; 4]]>)
        ensures
            r.is_none(),
    {
        None
    }

    pub fn indices(&self) -> (r: Option<&[u16]>)
        ensures
            match r {
                Some(i) => self@.indices == Some(i@),
                None => self@.indices.is_none(),
            },
    {
        match &self.native.indices {
            Some(i) => Some(i.as_slice()),
            None => None,
        }
    }

    /// Meshes are never volatile.
    pub fn is_volatile(&self) -> (r: bool)
        ensures
            !r,
    {
        false
    }
}

/// The bytes a mesh takes besides its arrays.
pub const HEADER_BYTES: usize = 16;

impl VerticesModel {
    /// The bytes the mesh takes: a fixed header, then each array at the size
    /// of its elements.
    pub open spec fn spec_approximate_size(self) -> nat {
        let v = self.positions.len();
        (HEADER_BYTES + 8 * v + (if self.texs.is_some() { 8 * v } else { 0 })
            + (if self.colors.is_some() { 4 * v } else { 0 }) + 2 * self.spec_index_count()) as nat
    }
}

impl RCHandle<SkVertices> {
    pub fn approximate_size(&self) -> (r: usize)
        requires
            self@.wf(),
            self@.spec_approximate_size() <= usize::MAX,
        ensures
            r == self@.spec_approximate_size(),
    {
        let v = self.native.positions.len();
        let mut size: usize = HEADER_BYTES + 8 * v;
        if self.native.texs.is_some() {
            size = size + 8 * v;
        }
        if self.native.colors.is_some() {
            size = size + 4 * v;
        }
        size + 2 * self.index_count()
    }
}

/// Which optional arrays a builder allocates.
#[derive(Clone, Copy, Debug, PartialEq, Eq, Structural)]
pub struct BuilderFlags {
    bits: u32,
}

impl BuilderFlags {
    /// The builder allocates texture coordinates.
    pub fn has_tex_coords() -> (r: BuilderFlags)
        ensures
            r.spec_bits() == 1,
    {
        BuilderFlags { bits: 1 }
    }

    /// The builder allocates colors.
    pub fn has_colors() -> (r: BuilderFlags)
        ensures
            r.spec_bits() == 2,
    {
        BuilderFlags { bits: 2 }
    }

    pub closed spec fn spec_bits(self) -> u32 {
        self.bits
    }

    pub fn empty() -> (r: BuilderFlags)
        ensures
            r.spec_bits() == 0,
    {
        BuilderFlags { bits: 0 }
    }

    pub fn all() -> (r: BuilderFlags)
        ensures
            r.spec_bits() == 3,
    {
        BuilderFlags { bits: 3 }
    }

    /// The flags of the given bits, those that name no flag dropped.
    pub fn from_bits_truncate(bits: u32) -> (r: BuilderFlags)
        ensures
            r.spec_bits() == bits & 3,
    {
        BuilderFlags { bits: bits & 3 }
    }

    pub fn bits(&self) -> (r: u32)
        ensures
            r == self.spec_bits(),
    {
        self.bits
    }

    pub fn union(self, o: BuilderFlags) -> (r: BuilderFlags)
        ensures
            r.spec_bits() == self.spec_bits() | o.spec_bits(),
    {
        BuilderFlags { bits: self.bits | o.bits }
    }

    pub fn contains(&self, o: BuilderFlags) -> (r: bool)
        ensures
            r == (self.spec_bits() & o.spec_bits() == o.spec_bits()),
    {
        self.bits & o.bits == o.bits
    }

    pub open spec fn spec_has_tex_coords(self) -> bool {
        self.spec_bits() & 1 != 0
    }

    pub open spec fn spec_has_colors(self) -> bool {
        self.spec_bits() & 2 != 0
    }
}

/// Stages a mesh: storage for the counts given up front, written through
/// the slices it hands out, and turned into a mesh once by `detach`.
pub type Builder = Handle<SkVerticesBuilder>;

/// The native builder object.
pub struct SkVerticesBuilder {
    unique_id: u32,
    mode: VertexMode,
    positions: Vec<Point>,
    texs: Option<Vec<Point>>,
    colors: Option<Vec<Color>>,
    indices: Option<Vec<u16>>,
}

/// What a builder holds.
pub struct BuilderModel {
    pub unique_id: u32,
    pub mode: VertexMode,
    pub positions: Seq<Point>,
    pub texs: Option<Seq<Point>>,
    pub colors: Option<Seq<Color>>,
    pub indices: Option<Seq<u16>>,
}

impl View for SkVerticesBuilder {
    type V = BuilderModel;

    closed spec fn view(&self) -> BuilderModel {
        BuilderModel {
            unique_id: self.unique_id,
            mode: self.mode,
            positions: self.positions@,
            texs: opt_view(self.texs),
            colors: opt_view(self.colors),
            indices: opt_view(self.indices),
        }
    }
}

impl BuilderModel {
    /// The arrays agree in length and the counts fit the engine.
    pub open spec fn wf(self) -> bool {
        &&& self.positions.len() <= MAX_COUNT
        &&& (self.texs matches Some(t) ==> t.len() == self.positions.len())
        &&& (self.colors matches Some(c) ==> c.len() == self.positions.len())
        &&& (self.indices matches Some(i) ==> 0 < i.len() <= MAX_COUNT)
    }
}

impl Handle<SkVerticesBuilder> {
    /// A builder with room for `vertex_count` positions and `index_count`
    /// indices, and for texture coordinates and colors where `flags` asks
    /// for them. Every element starts zeroed; no indices are allocated when
    /// `index_count` is zero.
    pub fn new(
        mode: VertexMode,
        vertex_count: usize,
        index_count: usize,
        flags: BuilderFlags,
        unique_id: u32,
    ) -> (r: Builder)
        requires
            vertex_count <= MAX_COUNT,
            index_count <= MAX_COUNT,
        ensures
            r@.wf(),
            r@.unique_id == unique_id,
            r@.mode == mode,
            r@.positions == Seq::new(vertex_count as nat, |i: int| Point { x: 0, y: 0 }),
            r@.texs == if flags.spec_has_tex_coords() {
                Some(Seq::new(vertex_count as nat, |i: int| Point { x: 0, y: 0 }))
            } else {
                None
            },
            r@.colors == if flags.spec_has_colors() {
                Some(Seq::new(vertex_count as nat, |i: int| Color(0)))
            } else {
                None
            },
            r@.indices == if index_count == 0 {
                None
            } else {
                Some(Seq::new(index_count as nat, |i: int| 0u16))
            },
    {
        let zero = Point::new(0, 0);
        let texs = if flags.bits & 1 != 0 { Some(filled(zero, vertex_count)) } else { None };
        let colors = if flags.bits & 2 != 0 { Some(filled(Color(0), vertex_count)) } else { None };
        let indices = if index_count == 0 { None } else { Some(filled(0u16, index_count)) };
        Handle {
            native: SkVerticesBuilder {
                unique_id,
                mode,
                positions: filled(zero, vertex_count),
                texs,
                colors,
                indices,
            },
        }
    }

    /// Whether the builder holds storage: always, once made.
    pub fn is_valid(&self) -> (r: bool)
        ensures
            r,
    {
        true
    }

    /// The positions, one per vertex, to be written in place.
    pub fn positions(&mut self) -> (r: &mut [Point])
        ensures
            r@ == old(self)@.positions,
            final(self)@ == (BuilderModel { positions: final(r)@, ..old(self)@ }),
            old(self)@.wf() && final(r)@.len() == r@.len() ==> final(self)@.wf(),
    {
        self.native.positions.as_mut_slice()
    }

    /// The indices, to be written in place; none where none were allocated.
    pub fn indices(&mut self) -> (r: Option<&mut [u16]>)
        ensures
            match r {
                Some(i) => {
                    &&& old(self)@.indices == Some(i@)
                    &&& final(self)@ == (BuilderModel { indices: Some(final(i)@), ..old(self)@ })
                    &&& old(self)@.wf() && final(i)@.len() == i@.len() ==> final(self)@.wf()
                },
                None => old(self)@.indices.is_none() && final(self)@ == old(self)@,
            },
    {
        match &mut self.native.indices {
            Some(i) => Some(i.as_mut_slice()),
            None => None,
        }
    }

    /// The texture coordinates, one per vertex, to be written in place; none
    /// where the builder was made without them.
    pub fn tex_coords(&mut self) -> (r: Option<&mut [Point]>)
        ensures
            match r {
                Some(t) => {
                    &&& old(self)@.texs == Some(t@)
                    &&& final(self)@ == (BuilderModel { texs: Some(final(t)@), ..old(self)@ })
                    &&& old(self)@.wf() && final(t)@.len() == t@.len() ==> final(self)@.wf()
                },
                None => old(self)@.texs.is_none() && final(self)@ == old(self)@,
            },
    {
        match &mut self.native.texs {
            Some(t) => Some(t.as_mut_slice()),
            None => None,
        }
    }

    /// The colors, one per vertex, to be written in place; none where the
    /// builder was made without them.
    pub fn colors(&mut self) -> (r: Option<&mut [Color]>)
        ensures
            match r {
                Some(c) => {
                    &&& old(self)@.colors == Some(c@)
                    &&& final(self)@ == (BuilderModel { colors: Some(final(c)@), ..old(self)@ })
                    &&& old(self)@.wf() && final(c)@.len() == c@.len() ==> final(self)@.wf()
                },
                None => old(self)@.colors.is_none() && final(self)@ == old(self)@,
            },
    {
        match &mut self.native.colors {
            Some(c) => Some(c.as_mut_slice()),
            None => None,
        }
    }

    /// Builders are never volatile.
    pub fn is_volatile(&self) -> (r: bool)
        ensures
            !r,
    {
        false
    }

    /// Meshes no longer carry bones.
    pub fn bone_indices(&mut self) -> (r: Option<&mut [[u32; 4]]>)
        ensures
            r.is_none(),
            final(self)@ == old(self)@,
    {
        None
    }

    /// Meshes no longer carry bones.
    pub fn bone_weights(&mut self) -> (r: Option<&mut [[u32; 4]]>)
        ensures
            r.is_none(),
            final(self)@ == old(self)@,
    {
        None
    }

    /// Turns the builder into the mesh it staged. The builder is consumed,
    /// so a second call cannot be written.
    pub fn detach(self) -> (r: Vertices)
        requires
            self@.wf(),
        ensures
            r@.wf(),
            r@.unique_id == self@.unique_id,
            r@.mode == self@.mode,
            r@.positions == self@.positions,
            r@.texs == self@.texs,
            r@.colors == self@.colors,
            r@.indices == self@.indices,
    {
        Vertices::from_parts(
            self.native.unique_id,
            self.native.mode,
            self.native.positions,
            self.native.texs,
            self.native.colors,
            self.native.indices,
        )
    }
}

/// A bone transform, six scalars. Meshes no longer take bones.
#[derive(Clone, Copy, Debug)]
pub struct Bone {
    pub values: [Scalar; 6],
}

/// A capability that the engine no longer has.
#[derive(Clone, Copy, Debug, PartialEq, Eq, Structural)]
pub enum Unsupported {
    RemovedWithoutReplacement,
}

impl RCHandle<SkVertices> {
    /// Deforming a mesh by bones was removed from the engine: always fails.
    pub fn apply_bones(&self, bones: &[Bone]) -> (r: Result<Vertices, Unsupported>)
        ensures
            r matches Err(Unsupported::RemovedWithoutReplacement),
    {
        Err(Unsupported::RemovedWithoutReplacement)
    }
}

} // verus!
