use std::collections::HashMap;
use vstd::prelude::*;

verus! {

/// Bit pattern of the single-precision value `0.0`.
pub const ZERO_BITS: u32 = 0;

/// Bit pattern of the single-precision value `1.0`.
pub const ONE_BITS: u32 = 0x3f80_0000;

/// A mesh vertex. Coordinates are IEEE-754 single-precision values held by
/// their bit patterns (`f32::to_bits`), so the vertex is plain data.
#[derive(Copy, Clone, Debug)]
pub struct Vertex {
    pub pos: [u32; 3],
    pub uv: [u32; 2],
    pub material_id: u8,
}

impl Vertex {
    /// A vertex at `(x, y, z)` with texture coordinate `(0, 1)` and no material.
    pub fn new(x: u32, y: u32, z: u32) -> (v: Vertex)
        ensures
            v.pos@ == seq![x, y, z],
            v.uv@ == seq![ZERO_BITS, ONE_BITS],
            v.material_id == 0,
    {
        let v = Vertex { pos: [x, y, z], uv: [ZERO_BITS, ONE_BITS], material_id: 0 };
        assert(v.pos@ =~= seq![x, y, z]);
        assert(v.uv@ =~= seq![ZERO_BITS, ONE_BITS]);
        v
    }
}

/// Relies on glium's `Texture2d`, a texture living in a rendering context; the
/// library only carries it.
#[verifier::external_type_specification]
#[verifier::external_body]
pub struct ExTexture2d(glium::texture::Texture2d);

/// One shading parameter of a material: an optional value, and an optional
/// texture image that overrides or augments it.
pub struct MaterialField<T> {
    value: Option<T>,
    texture: Option<glium::texture::Texture2d>,
}

impl<T> MaterialField<T> {
    pub closed spec fn value(&self) -> Option<T> {
        self.value
    }

    pub closed spec fn texture(&self) -> Option<glium::texture::Texture2d> {
        self.texture
    }

    /// A field holding `value` and no texture.
    pub fn new(value: T) -> (f: MaterialField<T>)
        ensures
            f.value() == Some(value),
            f.texture() is None,
    {
        MaterialField { value: Some(value), texture: None }
    }

    pub fn set_value(&mut self, value: T)
        ensures
            final(self).value() == Some(value),
            final(self).texture() == old(self).texture(),
    {
        self.value = Some(value);
    }

    pub fn set_texture(&mut self, texture: glium::texture::Texture2d)
        ensures
            final(self).value() == old(self).value(),
            final(self).texture() == Some(texture),
    {
        self.texture = Some(texture);
    }

    pub fn clear_texture(&mut self)
        ensures
            final(self).value() == old(self).value(),
            final(self).texture() is None,
    {
        self.texture = None;
    }

    /// The value, if one is set.
    pub fn get_value(&self) -> (r: Option<&T>)
        ensures
            r == match self.value() {
                Some(v) => Some(&v),
                None => None::<&T>,
            },
    {
        self.value.as_ref()
    }

    /// Whether a texture is attached.
    pub fn has_texture(&self) -> (r: bool)
        ensures
            r == self.texture() is Some,
    {
        self.texture.is_some()
    }
}

/// Shading parameters: a diffuse color (three single-precision components,
/// as bit patterns) and a specularity scalar (as a bit pattern).
pub struct Material {
    pub diffuse: MaterialField<[u32; 3]>,
    pub specularity: MaterialField<u32>,
}

impl Material {
    pub fn new(diffuse: MaterialField<[u32; 3]>, specularity: MaterialField<u32>) -> (m: Material)
        ensures
            m.diffuse == diffuse,
            m.specularity == specularity,
    {
        Material { diffuse, specularity }
    }
}


/// The highest material identifier; identifiers are never reused, so a scene
/// can be given at most this many materials through `add_material`.
pub const MAX_MATERIAL_ID: u8 = 255;

/// How an index sequence is read: each consecutive triple is one triangle.
#[derive(Copy, Clone, Debug, PartialEq, Eq, Structural)]
pub enum Primitive {
    TrianglesList,
}

/// Why a scene cannot be drawn.
#[derive(Copy, Clone, Debug, PartialEq, Eq, Structural)]
pub enum DrawError {
    /// The index sequence is empty, so no index buffer can be built.
    MissingIndices,
    /// No uniform bundle was ever supplied.
    MissingUniforms,
}

impl DrawError {
    /// A short description of the failure.
    pub fn message(&self) -> (r: &'static str)
        ensures
            *self == DrawError::MissingIndices ==> r@ == "Missing indices"@,
            *self == DrawError::MissingUniforms ==> r@ == "Cannot draw before specifying uniforms"@,
    {
        match self {
            DrawError::MissingIndices => "Missing indices",
            DrawError::MissingUniforms => "Cannot draw before specifying uniforms",
        }
    }
}

/// The single draw call of a frame: the target is cleared to `clear_color`
/// (single-precision RGBA bit patterns), then `index_count` indices over
/// `vertex_count` vertices are drawn as `primitive`.
#[derive(Copy, Clone, Debug)]
pub struct DrawCall {
    pub clear_color: [u32; 4],
    pub primitive: Primitive,
    pub index_count: usize,
    pub vertex_count: usize,
}

/// The opaque blue every frame is cleared to.
pub open spec fn background() -> Seq<u32> {
    seq![ZERO_BITS, ZERO_BITS, ONE_BITS, ONE_BITS]
}

/// The identifier `add_material` hands out after `last`: the one above it,
/// or none once the last identifier has been used.
pub open spec fn next_material_id(last: u8) -> Option<u8> {
    if last < MAX_MATERIAL_ID {
        Some((last + 1) as u8)
    } else {
        None
    }
}

/// Material identifiers strictly increase from 1 and are never reused: a new
/// scene hands out 1 first, and whatever `add_material` hands out after
/// `last` exceeds every identifier handed out up to `last`. Replacing the
/// table leaves `last` as it is, so it does not restart the sequence.
pub proof fn lemma_material_ids_increase(last: u8, earlier: u8)
    requires
        earlier <= last,
    ensures
        next_material_id(0) == Some(1u8),
        match next_material_id(last) {
            Some(id) => id > earlier && id > last,
            None => last == MAX_MATERIAL_ID,
        },
{
}

/// Mesh geometry, a material table, an optional uniform bundle of type `U`,
/// and the GPU buffers derived from the geometry: a vertex buffer of type `V`
/// and an index buffer of type `I`, each built on demand by `draw` and
/// dropped whenever the geometry is replaced.
pub struct Scene<U, V, I> {
    vertices: Vec<Vertex>,
    indices: Vec<u32>,
    vertex_buffer: Option<V>,
    index_buffer: Option<I>,
    uniforms: Option<U>,
    materials: HashMap<u8, Material>,
    id_counter: u8,
}

impl<U, V, I> Scene<U, V, I> {
    pub closed spec fn vertices(&self) -> Seq<Vertex> {
        self.vertices@
    }

    pub closed spec fn indices(&self) -> Seq<u32> {
        self.indices@
    }

    pub closed spec fn vertex_buffer(&self) -> Option<V> {
        self.vertex_buffer
    }

    pub closed spec fn index_buffer(&self) -> Option<I> {
        self.index_buffer
    }

    pub closed spec fn uniforms(&self) -> Option<U> {
        self.uniforms
    }

    pub closed spec fn materials(&self) -> Map<u8, Material> {
        self.materials@
    }

    /// The identifier most recently handed out by `add_material`, 0 if none.
    pub closed spec fn last_material_id(&self) -> u8 {
        self.id_counter
    }

    /// An index buffer is only ever cached for a non-empty index sequence.
    pub closed spec fn wf(&self) -> bool {
        self.index_buffer is Some ==> self.indices@.len() > 0
    }

    /// An empty scene: no geometry, no materials, no uniforms, nothing cached.
    pub fn new() -> (s: Scene<U, V, I>)
        ensures
            s.wf(),
            s.vertices() == Seq::<Vertex>::empty(),
            s.indices() == Seq::<u32>::empty(),
            s.vertex_buffer() is None,
            s.index_buffer() is None,
            s.uniforms() is None,
            s.materials() == Map::<u8, Material>::empty(),
            s.last_material_id() == 0,
    {
        Scene {
            vertices: Vec::new(),
            indices: Vec::new(),
            materials: HashMap::new(),
            id_counter: 0,
            vertex_buffer: None,
            index_buffer: None,
            uniforms: None,
        }
    }

    /// Replaces the vertex sequence and drops both cached buffers.
    pub fn set_vertices(&mut self, vertices: Vec<Vertex>)
        requires
            old(self).wf(),
        ensures
            final(self).wf(),
            final(self).vertices() == vertices@,
            final(self).vertex_buffer() is None,
            final(self).index_buffer() is None,
            final(self).indices() == old(self).indices(),
            final(self).uniforms() == old(self).uniforms(),
            final(self).materials() == old(self).materials(),
            final(self).last_material_id() == old(self).last_material_id(),
    {
        self.vertices = vertices;
        self.vertex_buffer = None;
        self.index_buffer = None;
    }

    /// Replaces the index sequence (a triangle list) and drops both cached
    /// buffers. Indices are not checked against the vertex sequence.
    pub fn set_indices(&mut self, indices: Vec<u32>)
        requires
            old(self).wf(),
        ensures
            final(self).wf(),
            final(self).indices() == indices@,
            final(self).vertex_buffer() is None,
            final(self).index_buffer() is None,
            final(self).vertices() == old(self).vertices(),
            final(self).uniforms() == old(self).uniforms(),
            final(self).materials() == old(self).materials(),
            final(self).last_material_id() == old(self).last_material_id(),
    {
        self.indices = indices;
        self.vertex_buffer = None;
        self.index_buffer = None;
    }

    /// Replaces the whole material table; the identifier counter is kept.
    pub fn set_materials(&mut self, materials: HashMap<u8, Material>)
        requires
            old(self).wf(),
        ensures
            final(self).wf(),
            final(self).materials() == materials@,
            final(self).last_material_id() == old(self).last_material_id(),
            final(self).vertices() == old(self).vertices(),
            final(self).indices() == old(self).indices(),
            final(self).vertex_buffer() == old(self).vertex_buffer(),
            final(self).index_buffer() == old(self).index_buffer(),
            final(self).uniforms() == old(self).uniforms(),
    {
        self.materials = materials;
    }

    /// Stores `material` under the next identifier and returns it; `None`,
    /// with the scene unchanged, once every identifier has been handed out.
    pub fn add_material(&mut self, material: Material) -> (r: Option<u8>)
        requires
            old(self).wf(),
        ensures
            final(self).wf(),
            r == next_material_id(old(self).last_material_id()),
            old(self).last_material_id() < MAX_MATERIAL_ID ==> {
                &&& final(self).last_material_id() == old(self).last_material_id() + 1
                &&& final(self).materials() == old(self).materials().insert(
                    final(self).last_material_id(),
                    material,
                )
            },
            old(self).last_material_id() == MAX_MATERIAL_ID ==> {
                &&& final(self).last_material_id() == old(self).last_material_id()
                &&& final(self).materials() == old(self).materials()
            },
            final(self).vertices() == old(self).vertices(),
            final(self).indices() == old(self).indices(),
            final(self).vertex_buffer() == old(self).vertex_buffer(),
            final(self).index_buffer() == old(self).index_buffer(),
            final(self).uniforms() == old(self).uniforms(),
    {
        broadcast use vstd::std_specs::hash::group_hash_axioms;

        if self.id_counter == MAX_MATERIAL_ID {
            return None;
        }
        self.id_counter = self.id_counter + 1;
        self.materials.insert(self.id_counter, material);
        Some(self.id_counter)
    }

    /// Supplies the uniform bundle used by every later draw.
    pub fn set_uniforms(&mut self, uniforms: U)
        requires
            old(self).wf(),
        ensures
            final(self).wf(),
            final(self).uniforms() == Some(uniforms),
            final(self).vertices() == old(self).vertices(),
            final(self).indices() == old(self).indices(),
            final(self).vertex_buffer() == old(self).vertex_buffer(),
            final(self).index_buffer() == old(self).index_buffer(),
            final(self).materials() == old(self).materials(),
            final(self).last_material_id() == old(self).last_material_id(),
    {
        self.uniforms = Some(uniforms);
    }

    /// The cached vertex buffer, if any.
    pub fn cached_vertex_buffer(&self) -> (r: Option<&V>)
        ensures
            r == match self.vertex_buffer() {
                Some(b) => Some(&b),
                None => None::<&V>,
            },
    {
        self.vertex_buffer.as_ref()
    }

    /// The cached index buffer, if any.
    pub fn cached_index_buffer(&self) -> (r: Option<&I>)
        ensures
            r == match self.index_buffer() {
                Some(b) => Some(&b),
                None => None::<&I>,
            },
    {
        self.index_buffer.as_ref()
    }

    /// The uniform bundle, if one was supplied.
    pub fn active_uniforms(&self) -> (r: Option<&U>)
        ensures
            r == match self.uniforms() {
                Some(u) => Some(&u),
                None => None::<&U>,
            },
    {
        self.uniforms.as_ref()
    }

    /// The material stored under `id`, if any.
    pub fn get_material(&self, id: u8) -> (r: Option<&Material>)
        ensures
            match r {
                Some(m) => self.materials().contains_key(id) && *m == self.materials()[id],
                None => !self.materials().contains_key(id),
            },
    {
        broadcast use vstd::std_specs::hash::group_hash_axioms;

        self.materials.get(&id)
    }

    /// Builds a vertex buffer from the current vertices with `build`.
    pub fn get_vertex_buffer<F: Fn(&Vec<Vertex>) -> V>(&self, build: &F) -> (r: V)
        requires
            forall|v: &Vec<Vertex>| build.requires((v,)),
        ensures
            vertex_buffer_of(*build, self.vertices(), r),
    {
        let r = build(&self.vertices);
        assert(build.ensures((&self.vertices,), r));
        r
    }

    /// Builds a triangle-list index buffer from the current indices with
    /// `build`; fails when there are no indices.
    pub fn get_index_buffer<G: Fn(Primitive, &Vec<u32>) -> I>(&self, build: &G) -> (r: Result<
        I,
        DrawError,
    >)
        requires
            forall|p: Primitive, v: &Vec<u32>| build.requires((p, v)),
        ensures
            self.indices().len() == 0 <==> r == Err::<I, DrawError>(DrawError::MissingIndices),
            self.indices().len() > 0 ==> (match r {
                Ok(b) => index_buffer_of(*build, self.indices(), b),
                Err(_) => false,
            }),
    {
        if self.indices.len() > 0 {
            let r = build(Primitive::TrianglesList, &self.indices);
            assert(build.ensures((Primitive::TrianglesList, &self.indices), r));
            Ok(r)
        } else {
            Err(DrawError::MissingIndices)
        }
    }

    fn update_vertex_buffer<F: Fn(&Vec<Vertex>) -> V>(&mut self, build: &F)
        requires
            old(self).wf(),
            forall|v: &Vec<Vertex>| build.requires((v,)),
        ensures
            final(self).wf(),
            old(self).vertex_buffer() is Some ==> final(self).vertex_buffer() == old(self).vertex_buffer(),
            old(self).vertex_buffer() is None ==> (match final(self).vertex_buffer() {
                Some(b) => vertex_buffer_of(*build, old(self).vertices(), b),
                None => false,
            }),
            final(self).vertices == old(self).vertices,
            final(self).indices == old(self).indices,
            final(self).index_buffer == old(self).index_buffer,
            final(self).uniforms == old(self).uniforms,
            final(self).materials == old(self).materials,
            final(self).id_counter == old(self).id_counter,
    {
        if self.vertex_buffer.is_none() {
            self.vertex_buffer = Some(self.get_vertex_buffer(build));
        }
    }

    fn update_index_buffer<G: Fn(Primitive, &Vec<u32>) -> I>(&mut self, build: &G) -> (r: Result<
        (),
        DrawError,
    >)
        requires
            old(self).wf(),
            forall|p: Primitive, v: &Vec<u32>| build.requires((p, v)),
        ensures
            final(self).wf(),
            r is Err <==> (old(self).index_buffer() is None && old(self).indices().len() == 0),
            r is Err ==> r == Err::<(), DrawError>(DrawError::MissingIndices),
            old(self).index_buffer() is Some ==> final(self).index_buffer() == old(self).index_buffer(),
            old(self).index_buffer() is None ==> (match final(self).index_buffer() {
                Some(b) => index_buffer_of(*build, old(self).indices(), b),
                None => old(self).indices().len() == 0,
            }),
            final(self).vertices == old(self).vertices,
            final(self).indices == old(self).indices,
            final(self).vertex_buffer == old(self).vertex_buffer,
            final(self).uniforms == old(self).uniforms,
            final(self).materials == old(self).materials,
            final(self).id_counter == old(self).id_counter,
    {
        if self.index_buffer.is_none() {
            let b = self.get_index_buffer(build)?;
            self.index_buffer = Some(b);
        }
        Ok(())
    }

    /// Prepares one frame: builds whichever of the two buffers is not cached
    /// (the vertex buffer first), keeps the cached ones, and describes the
    /// draw call over them. Fails when no index buffer can be built, then
    /// when no uniform bundle was supplied.
    pub fn draw<F: Fn(&Vec<Vertex>) -> V, G: Fn(Primitive, &Vec<u32>) -> I>(
        &mut self,
        build_vertex_buffer: F,
        build_index_buffer: G,
    ) -> (r: Result<DrawCall, DrawError>)
        requires
            old(self).wf(),
            forall|v: &Vec<Vertex>| build_vertex_buffer.requires((v,)),
            forall|p: Primitive, v: &Vec<u32>| build_index_buffer.requires((p, v)),
        ensures
            final(self).wf(),
            old(self).vertex_buffer() is Some ==> final(self).vertex_buffer() == old(self).vertex_buffer(),
            old(self).vertex_buffer() is None ==> (match final(self).vertex_buffer() {
                Some(b) => vertex_buffer_of(build_vertex_buffer, old(self).vertices(), b),
                None => false,
            }),
            old(self).index_buffer() is Some ==> final(self).index_buffer() == old(self).index_buffer(),
            old(self).index_buffer() is None ==> (match final(self).index_buffer() {
                Some(b) => index_buffer_of(build_index_buffer, old(self).indices(), b),
                None => old(self).indices().len() == 0,
            }),
            old(self).indices().len() == 0 ==> r == Err::<DrawCall, DrawError>(
                DrawError::MissingIndices,
            ),
            old(self).indices().len() > 0 && old(self).uniforms() is None ==> r == Err::<
                DrawCall,
                DrawError,
            >(DrawError::MissingUniforms),
            old(self).indices().len() > 0 && old(self).uniforms() is Some ==> (match r {
                Ok(c) => {
                    &&& c.clear_color@ == background()
                    &&& c.primitive == Primitive::TrianglesList
                    &&& c.index_count == old(self).indices().len()
                    &&& c.vertex_count == old(self).vertices().len()
                },
                Err(_) => false,
            }),
            final(self).vertices() == old(self).vertices(),
            final(self).indices() == old(self).indices(),
            final(self).uniforms() == old(self).uniforms(),
            final(self).materials() == old(self).materials(),
            final(self).last_material_id() == old(self).last_material_id(),
    {
        self.update_vertex_buffer(&build_vertex_buffer);
        self.update_index_buffer(&build_index_buffer)?;
        if self.uniforms.is_none() {
            return Err(DrawError::MissingUniforms);
        }
        let call = DrawCall {
            clear_color: [ZERO_BITS, ZERO_BITS, ONE_BITS, ONE_BITS],
            primitive: Primitive::TrianglesList,
            index_count: self.indices.len(),
            vertex_count: self.vertices.len(),
        };
        assert(call.clear_color@ =~= background());
        Ok(call)
    }
}

/// `b` is what `build` returned for a vertex sequence equal to `vertices`.
pub open spec fn vertex_buffer_of<V, F: Fn(&Vec<Vertex>) -> V>(
    build: F,
    vertices: Seq<Vertex>,
    b: V,
) -> bool {
    exists|v: &Vec<Vertex>| v@ == vertices && #[trigger] build.ensures((v,), b)
}

/// `b` is what `build` returned for an index sequence equal to `indices`,
/// read as a triangle list.
pub open spec fn index_buffer_of<I, G: Fn(Primitive, &Vec<u32>) -> I>(
    build: G,
    indices: Seq<u32>,
    b: I,
) -> bool {
    exists|v: &Vec<u32>|
        v@ == indices && #[trigger] build.ensures((Primitive::TrianglesList, v), b)
}

} // verus!
