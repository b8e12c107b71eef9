//! Building a model from an imported scene: the meshes are gathered into
//! one vertex and one index array with a draw for each mesh, then the
//! materials are loaded and the buffers created.
use vstd::prelude::*;
use crate::color::Color4T;
use crate::device::Event;
use crate::device::Request;
use crate::graphics::Command;
use crate::graphics::PrimitiveTopology;
use crate::material::Material;
use crate::material::MaterialInfo;
use crate::material::MaterialLoader;
use crate::model::DrawData;
use crate::model::MeshVertex;
use crate::model::Model;
use crate::model::ModelSetup;
use crate::model::ModelStage;
use crate::model::UNRESOLVED_MATERIAL;
use crate::model::destroy_commands;
use crate::model::destroy_materials;
use crate::native::ResourceError;
use crate::numerics::Float32;
use crate::numerics::Point3F;
use crate::numerics::Vector2F;
use crate::numerics::Vector3F;
use crate::numerics::ZERO;
use crate::vertex_format::fresh_format;

verus! {

/// One mesh of an imported scene: three numbers for each position and, if
/// the mesh has them, for each normal, two for each texture coordinate;
/// three indices for each triangle; and the place of its material in the
/// scene, if it has one.
#[derive(Debug, PartialEq)]
pub struct ImportedMesh {
    pub positions: Vec<Float32>,
    pub normals: Vec<Float32>,
    pub texcoords: Vec<Float32>,
    pub indices: Vec<u32>,
    pub material_id: Option<usize>,
}

/// One material of an imported scene: the file of its diffuse texture.
#[derive(Debug, PartialEq)]
pub struct ImportedMaterial {
    pub diffuse_texture: String,
}

impl ImportedMesh {
    /// The vertices of the mesh: one for every three position numbers.
    pub open spec fn num_verts(&self) -> int {
        self.positions@.len() as int / 3
    }

    /// Normals and texture coordinates are either absent or there for
    /// every vertex.
    pub open spec fn wf(&self) -> bool {
        &&& self.normals@.len() == 0 || self.normals@.len() >= 3 * self.num_verts()
        &&& self.texcoords@.len() == 0 || self.texcoords@.len() >= 2 * self.num_verts()
    }

    /// The vertex at place `i`: its position, its normal and texture
    /// coordinates where the mesh has them and zero where not, no tangent,
    /// white.
    pub open spec fn vertex(&self, i: int) -> MeshVertex {
        MeshVertex {
            pos: Point3F {
                x: self.positions@[3 * i],
                y: self.positions@[3 * i + 1],
                z: self.positions@[3 * i + 2],
            },
            norm: if self.normals@.len() == 0 {
                Vector3F { x: ZERO, y: ZERO, z: ZERO }
            } else {
                Vector3F {
                    x: self.normals@[3 * i],
                    y: self.normals@[3 * i + 1],
                    z: self.normals@[3 * i + 2],
                }
            },
            tangent: Vector3F { x: ZERO, y: ZERO, z: ZERO },
            uv: if self.texcoords@.len() == 0 {
                Vector2F { x: ZERO, y: ZERO }
            } else {
                Vector2F { x: self.texcoords@[2 * i], y: self.texcoords@[2 * i + 1] }
            },
            color: Color4T { r: 255u8, g: 255u8, b: 255u8, a: 255u8 },
        }
    }

    /// The vertices of the mesh, in order.
    pub open spec fn vertices(&self) -> Seq<MeshVertex> {
        Seq::new(self.num_verts() as nat, |i: int| self.vertex(i))
    }

    /// The material index of the mesh's draw.
    pub open spec fn material_idx(&self) -> u32 {
        match self.material_id {
            Some(id) => id as u32,
            None => UNRESOLVED_MATERIAL,
        }
    }
}

/// The indices of whole triangles with the winding of each reversed: the
/// second and third index of every triangle change places. Indices beyond
/// the last whole triangle are dropped.
pub open spec fn rewound(indices: Seq<u32>) -> Seq<u32> {
    Seq::new(
        (indices.len() / 3 * 3) as nat,
        |k: int|
            if k % 3 == 0 {
                indices[k]
            } else if k % 3 == 1 {
                indices[k + 1]
            } else {
                indices[k - 1]
            },
    )
}

/// What a scene comes to: the vertices and the rewound indices of all its
/// meshes, and a draw for each mesh.
pub struct Gathered {
    pub verts: Seq<MeshVertex>,
    pub indices: Seq<u32>,
    pub draws: Seq<DrawData>,
}

/// Gathers meshes one after the other. The draw of a mesh starts where the
/// indices gathered before it end.
pub open spec fn gathered(meshes: Seq<ImportedMesh>) -> Gathered
    decreases meshes.len(),
{
    if meshes.len() == 0 {
        Gathered { verts: Seq::empty(), indices: Seq::empty(), draws: Seq::empty() }
    } else {
        let before = gathered(meshes.drop_last());
        let mesh = meshes.last();
        Gathered {
            verts: before.verts + mesh.vertices(),
            indices: before.indices + rewound(mesh.indices@),
            draws: before.draws.push(
                DrawData {
                    start_index: before.indices.len() as u32,
                    num_tris: (mesh.indices@.len() / 3) as u32,
                    material_idx: mesh.material_idx(),
                },
            ),
        }
    }
}

/// Why a mesh cannot be gathered behind `indices_before` indices: its
/// normals or texture coordinates are there for some vertices only
/// (`SizeMismatch`), or the indices together, or its material's place, do
/// not fit 32 bits (`TooLarge`).
pub open spec fn mesh_error(mesh: ImportedMesh, indices_before: int) -> Option<ResourceError> {
    if !mesh.wf() {
        Some(ResourceError::SizeMismatch)
    } else if indices_before + mesh.indices@.len() / 3 * 3 > u32::MAX {
        Some(ResourceError::TooLarge)
    } else if mesh.material_id matches Some(id) && id > u32::MAX {
        Some(ResourceError::TooLarge)
    } else {
        None
    }
}

/// Why a scene cannot be gathered: the error of its first mesh that has
/// one.
pub open spec fn gather_error(meshes: Seq<ImportedMesh>) -> Option<ResourceError>
    decreases meshes.len(),
{
    if meshes.len() == 0 {
        None
    } else {
        match gather_error(meshes.drop_last()) {
            Some(e) => Some(e),
            None => mesh_error(meshes.last(), gathered(meshes.drop_last()).indices.len() as int),
        }
    }
}

/// The draws of a gathered scene stay within its indices.
pub proof fn lemma_gathered_ranges(meshes: Seq<ImportedMesh>)
    requires
        gather_error(meshes) is None,
    ensures
        gathered(meshes).draws.len() == meshes.len(),
        gathered(meshes).indices.len() <= u32::MAX,
        forall|i: int|
            0 <= i < meshes.len() ==> (#[trigger] gathered(meshes).draws[i]).start_index + gathered(
                meshes,
            ).draws[i].num_tris * 3 <= gathered(meshes).indices.len(),
    decreases meshes.len(),
{
    if meshes.len() > 0 {
        lemma_gathered_ranges(meshes.drop_last());
    }
}

/// The shader that renders imported objects.
pub const OBJECT_SHADER: &'static str = "data\\shaders\\object.hlsl";

/// The directory in which the textures of imported objects are looked for.
pub const OBJECT_DIR: &'static str = "data\\objects";

/// Whether `info` is the description of the material of an imported
/// object whose diffuse texture lies at `texture`: the object shader, mesh
/// vertices in triangle lists, and the texture as albedo map.
pub open spec fn describes(info: MaterialInfo, texture: Seq<char>) -> bool {
    &&& info.shader_file@ == OBJECT_SHADER@
    &&& fresh_format(info.vert_format, MeshVertex::decls())
    &&& info.vert_format.stride == 48
    &&& info.topology == PrimitiveTopology::TriangleList
    &&& info.wf()
    &&& info.textures@.len() == 1
    &&& info.textures@[0].name@ == "albedo_map"@
    &&& info.textures@[0].path@ == texture
}

/// Utility to build or load a model.
#[derive(Debug, PartialEq)]
pub struct ModelBuilder {
    pub verts: Vec<MeshVertex>,
    pub indices: Vec<u32>,
    pub draws: Vec<DrawData>,
    pub materials: Vec<MaterialInfo>,
}

impl ModelBuilder {
    /// Gathers an imported scene. The vertices, indices and draws are those
    /// of the meshes gathered in order; every imported material is
    /// described for loading. A mesh that cannot be gathered fails the
    /// scene with its error.
    pub fn load_from_obj(models: &Vec<ImportedMesh>, materials: &Vec<ImportedMaterial>) -> (r: Result<
        ModelBuilder,
        ResourceError,
    >)
        ensures
            gather_error(models@) matches Some(e) ==> r == Err::<ModelBuilder, ResourceError>(e),
            gather_error(models@) is None ==> {
                &&& r matches Ok(builder)
                &&& builder.verts@ == gathered(models@).verts
                &&& builder.indices@ == gathered(models@).indices
                &&& builder.draws@ == gathered(models@).draws
                &&& builder.materials@.len() == materials@.len()
                &&& forall|j: int|
                    0 <= j < materials@.len() ==> describes(
                        #[trigger] builder.materials@[j],
                        materials@[j].diffuse_texture@,
                    )
            },
    {
        let mut infos: Vec<MaterialInfo> = Vec::new();
        let mut j: usize = 0;
        while j < materials.len()
            invariant
                j <= materials@.len(),
                infos@.len() == j,
                forall|k: int|
                    0 <= k < j ==> describes(#[trigger] infos@[k], materials@[k].diffuse_texture@),
            decreases materials@.len() - j,
        {
            let mut info = MaterialInfo::new(
                OBJECT_SHADER.to_owned(),
                MeshVertex::get_format(),
                PrimitiveTopology::TriangleList,
            );
            info.insert("albedo_map".to_owned(), materials[j].diffuse_texture.clone());
            infos.push(info);
            j += 1;
        }
        let mut verts: Vec<MeshVertex> = Vec::new();
        let mut indices: Vec<u32> = Vec::new();
        let mut draws: Vec<DrawData> = Vec::new();
        let mut m: usize = 0;
        assert(models@.take(0) =~= Seq::<ImportedMesh>::empty());
        while m < models.len()
            invariant
                m <= models@.len(),
                gather_error(models@.take(m as int)) is None,
                verts@ == gathered(models@.take(m as int)).verts,
                indices@ == gathered(models@.take(m as int)).indices,
                draws@ == gathered(models@.take(m as int)).draws,
                indices@.len() <= u32::MAX,
            decreases models@.len() - m,
        {
            let mesh = &models[m];
            let ghost before = models@.take(m as int);
            let ghost after = models@.take(m + 1);
            assert(after.drop_last() =~= before);
            assert(after.last() == *mesh);
            proof {
                lemma_error_sticks(models@, m + 1);
            }
            let num_verts: usize = mesh.positions.len() / 3;
            let num_tris: usize = mesh.indices.len() / 3;
            if (mesh.normals.len() != 0 && mesh.normals.len() / 3 < num_verts) || (
            mesh.texcoords.len() != 0 && mesh.texcoords.len() / 2 < num_verts) {
                return Err(ResourceError::SizeMismatch);
            }
            let start: usize = indices.len();
            if num_tris > (u32::MAX as usize - start) / 3 {
                return Err(ResourceError::TooLarge);
            }
            let material_idx: u32 = match mesh.material_id {
                Some(id) => {
                    if id > u32::MAX as usize {
                        return Err(ResourceError::TooLarge);
                    }
                    id as u32
                },
                None => UNRESOLVED_MATERIAL,
            };
            let ghost verts_before = verts@;
            let mut i: usize = 0;
            while i < num_verts
                invariant
                    i <= num_verts,
                    num_verts == mesh.num_verts(),
                    num_verts * 3 <= mesh.positions@.len() <= usize::MAX,
                    mesh.normals@.len() <= usize::MAX,
                    mesh.texcoords@.len() <= usize::MAX,
                    mesh.wf(),
                    verts@ == verts_before + mesh.vertices().take(i as int),
                decreases num_verts - i,
            {
                let mut v = MeshVertex::default();
                v.pos = Point3F {
                    x: mesh.positions[i * 3],
                    y: mesh.positions[i * 3 + 1],
                    z: mesh.positions[i * 3 + 2],
                };
                if mesh.normals.len() != 0 {
                    v.norm = Vector3F {
                        x: mesh.normals[i * 3],
                        y: mesh.normals[i * 3 + 1],
                        z: mesh.normals[i * 3 + 2],
                    };
                }
                if mesh.texcoords.len() != 0 {
                    v.uv = Vector2F { x: mesh.texcoords[i * 2], y: mesh.texcoords[i * 2 + 1] };
                }
                verts.push(v);
                assert(verts@ =~= verts_before + mesh.vertices().take(i + 1));
                i += 1;
            }
            assert(mesh.vertices().take(num_verts as int) =~= mesh.vertices());
            // wind the triangles differently to support our front-facing winding
            let ghost indices_before = indices@;
            let mut t: usize = 0;
            while t < num_tris
                invariant
                    t <= num_tris,
                    num_tris == mesh.indices@.len() / 3,
                    num_tris * 3 <= mesh.indices@.len() <= usize::MAX,
                    indices@ == indices_before + rewound(mesh.indices@).take(3 * t),
                decreases num_tris - t,
            {
                indices.push(mesh.indices[t * 3]);
                indices.push(mesh.indices[t * 3 + 2]);
                indices.push(mesh.indices[t * 3 + 1]);
                assert(indices@ =~= indices_before + rewound(mesh.indices@).take(3 * (t + 1)));
                t += 1;
            }
            assert(rewound(mesh.indices@).take(3 * num_tris) =~= rewound(mesh.indices@));
            draws.push(
                DrawData { start_index: start as u32, num_tris: num_tris as u32, material_idx },
            );
            m += 1;
        }
        assert(models@.take(m as int) =~= models@);
        Ok(ModelBuilder { verts, indices, draws, materials: infos })
    }
}

/// The building of a model: the materials are loaded one after the other,
/// then the model is set up from them and the gathered arrays. A material
/// that cannot be loaded fails the build, and the materials loaded before
/// it are released.
#[derive(Debug, PartialEq)]
pub enum ModelBuild {
    /// Loading a material; `pending` are the descriptions still to load,
    /// `mats` the materials loaded.
    Materials {
        loader: MaterialLoader,
        pending: Vec<MaterialInfo>,
        mats: Vec<Material>,
        verts: Vec<MeshVertex>,
        indices: Vec<u32>,
        draws: Vec<DrawData>,
    },
    /// Setting the model up, or at the end of it.
    Setup(ModelSetup),
}

impl ModelBuild {
    pub open spec fn wf(&self) -> bool {
        match self {
            ModelBuild::Materials { loader, .. } => loader.wf() && !loader.finished(),
            ModelBuild::Setup(setup) => setup.wf(),
        }
    }

    /// The vertices that the model is built from.
    pub open spec fn verts(&self) -> Vec<MeshVertex> {
        match self {
            ModelBuild::Materials { verts, .. } => *verts,
            ModelBuild::Setup(setup) => setup.verts,
        }
    }

    /// The indices that the model is built from.
    pub open spec fn indices(&self) -> Vec<u32> {
        match self {
            ModelBuild::Materials { indices, .. } => *indices,
            ModelBuild::Setup(setup) => setup.indices,
        }
    }

    /// The draws that the model is built from.
    pub open spec fn draws(&self) -> Vec<DrawData> {
        match self {
            ModelBuild::Materials { draws, .. } => *draws,
            ModelBuild::Setup(setup) => setup.draws,
        }
    }

    /// Whether the build works on the same vertices, indices and draws as
    /// `other`.
    pub open spec fn same_parts(&self, other: ModelBuild) -> bool {
        &&& self.verts() == other.verts()
        &&& self.indices() == other.indices()
        &&& self.draws() == other.draws()
    }

    /// Whether the build has come to its end.
    pub open spec fn finished(&self) -> bool {
        self matches ModelBuild::Setup(setup) && setup.finished()
    }

    /// Whether `event` answers what the build waits for.
    pub open spec fn expects(&self, event: Event) -> bool {
        match self {
            ModelBuild::Materials { loader, .. } => loader.expects(event),
            ModelBuild::Setup(setup) => !setup.finished() && event is Object,
        }
    }

    /// Whether `next` and `commands` are how the build goes on with `mats`
    /// loaded and `pending` still to load: with the first pending material,
    /// or, where none is left, with the setup of the model.
    pub open spec fn proceeds(
        verts: Vec<MeshVertex>,
        indices: Vec<u32>,
        draws: Vec<DrawData>,
        pending: Seq<MaterialInfo>,
        mats: Seq<Material>,
        next: ModelBuild,
        commands: Seq<Command>,
    ) -> bool {
        if pending.len() == 0 {
            next matches ModelBuild::Setup(setup) && ModelSetup::starts(
                verts,
                indices,
                draws,
                mats,
                setup,
                commands,
            )
        } else {
            &&& next matches ModelBuild::Materials {
                loader,
                pending: p,
                mats: m,
                verts: v,
                indices: i,
                draws: d,
            }
            &&& MaterialLoader::starts(pending[0], loader)
            &&& p@ == pending.remove(0)
            &&& m@ == mats
            &&& v == verts
            &&& i == indices
            &&& d == draws
            &&& commands == Seq::<Command>::empty()
        }
    }

    /// Whether `next` and `commands` are what follows when `event` answers
    /// the pending request. While a material is loaded, its load takes the
    /// answer; when it ends, the material joins those loaded and the build
    /// proceeds, or the load's error fails the build. Afterwards the setup
    /// of the model takes the answers.
    pub open spec fn step(&self, event: Event, next: ModelBuild, commands: Seq<Command>) -> bool {
        match self {
            ModelBuild::Materials { loader, pending, mats, verts, indices, draws } => exists|
                after: MaterialLoader,
                first: Seq<Command>,
            |
                {
                    let rest = commands.skip(first.len() as int);
                    &&& #[trigger] loader.step(event, after, first)
                    &&& first.len() <= commands.len()
                    &&& commands.take(first.len() as int) == first
                    &&& match after.stage {
                        crate::material::LoadStage::Failed(e) => {
                            &&& next matches ModelBuild::Setup(setup)
                            &&& setup.stage == ModelStage::Failed(e)
                            &&& setup.verts == verts
                            &&& setup.indices == indices
                            &&& setup.draws == draws
                            &&& setup.mats@ == Seq::<Material>::empty()
                            &&& rest == destroy_commands(mats@)
                        },
                        crate::material::LoadStage::Done => ModelBuild::proceeds(
                            *verts,
                            *indices,
                            *draws,
                            pending@,
                            mats@.push(
                                Material {
                                    vs: crate::shader::Shader::Vertex(after.vs),
                                    ps: crate::shader::Shader::Pixel(after.ps),
                                    layout: crate::input_layout::InputLayout { data: after.layout },
                                    topology: after.info.topology,
                                    textures: after.textures,
                                    ps_inputs: after.ps_inputs,
                                },
                            ),
                            next,
                            rest,
                        ),
                        _ => {
                            &&& next == (ModelBuild::Materials {
                                loader: after,
                                pending: *pending,
                                mats: *mats,
                                verts: *verts,
                                indices: *indices,
                                draws: *draws,
                            })
                            &&& rest == Seq::<Command>::empty()
                        },
                    }
                },
            ModelBuild::Setup(setup) => next matches ModelBuild::Setup(after) && setup.step(
                event,
                after,
                commands,
            ),
        }
    }

    /// Goes on with the first pending material, or with the setup of the
    /// model where none is left.
    fn proceed(
        verts: Vec<MeshVertex>,
        indices: Vec<u32>,
        draws: Vec<DrawData>,
        pending: Vec<MaterialInfo>,
        mats: Vec<Material>,
    ) -> (out: (ModelBuild, Vec<Command>))
        ensures
            out.0.wf(),
            ModelBuild::proceeds(verts, indices, draws, pending@, mats@, out.0, out.1@),
    {
        let mut pending = pending;
        if pending.len() == 0 {
            let (setup, commands) = ModelSetup::start(verts, indices, draws, mats);
            (ModelBuild::Setup(setup), commands)
        } else {
            let info = pending.remove(0);
            let loader = MaterialLoader::start(info);
            (ModelBuild::Materials { loader, pending, mats, verts, indices, draws }, Vec::new())
        }
    }

    /// Whether `r` is the request that the build waits for: that of the
    /// material being loaded, or that of the setup of the model.
    pub open spec fn asks(&self, r: Option<Request>) -> bool {
        match self {
            ModelBuild::Materials { loader, .. } => loader.asks(r),
            ModelBuild::Setup(setup) => setup.asks(r),
        }
    }

    /// The request to perform next; none once the build has ended.
    pub fn request(&self) -> (r: Option<Request>)
        requires
            self.wf(),
        ensures
            self.asks(r),
            self.finished() <==> r is None,
            r matches Some(request) ==> forall|event: Event|
                request.answered_by(event) == self.expects(event),
    {
        match self {
            ModelBuild::Materials { loader, .. } => loader.request(),
            ModelBuild::Setup(setup) => setup.request(),
        }
    }

    /// Takes the answer to the pending request. Beside the next state
    /// stand the commands to perform. No step changes the vertices, the
    /// indices or the draws that the model is built from.
    pub fn advance(self, event: Event) -> (out: (ModelBuild, Vec<Command>))
        requires
            self.wf(),
            self.expects(event),
        ensures
            out.0.wf(),
            out.0.same_parts(self),
            self.step(event, out.0, out.1@),
    {
        match self {
            ModelBuild::Materials { loader, pending, mats, verts, indices, draws } => {
                let (after, mut commands) = loader.advance(event);
                let ghost first = commands@;
                let ghost shown = after;
                if !after.is_finished() {
                    assert(commands@.take(first.len() as int) =~= first);
                    assert(commands@.skip(first.len() as int) =~= Seq::<Command>::empty());
                    return (
                        ModelBuild::Materials { loader: after, pending, mats, verts, indices, draws },
                        commands,
                    );
                }
                match Material::load(after) {
                    Err(e) => {
                        let ghost loaded = mats@;
                        destroy_materials(mats, &mut commands);
                        assert(commands@.take(first.len() as int) =~= first);
                        assert(commands@.skip(first.len() as int) =~= destroy_commands(loaded));
                        assert(loader.step(event, shown, first));
                        (ModelBuild::Setup(ModelSetup::failed(e, verts, indices, draws)), commands)
                    },
                    Ok(material) => {
                        let mut mats = mats;
                        mats.push(material);
                        let (next, mut rest) = ModelBuild::proceed(
                            verts,
                            indices,
                            draws,
                            pending,
                            mats,
                        );
                        let ghost more = rest@;
                        commands.append(&mut rest);
                        assert(commands@.take(first.len() as int) =~= first);
                        assert(commands@.skip(first.len() as int) =~= more);
                        assert(loader.step(event, shown, first));
                        (next, commands)
                    },
                }
            },
            ModelBuild::Setup(setup) => {
                let (after, commands) = setup.advance(event);
                (ModelBuild::Setup(after), commands)
            },
        }
    }

    /// The model that a finished build gives. Its draws fit.
    pub fn finish(self) -> (r: Result<Model, ResourceError>)
        requires
            self.wf(),
            self.finished(),
        ensures
            self->Setup_0.stage matches ModelStage::Failed(e) ==> r == Err::<Model, ResourceError>(
                e,
            ),
            self->Setup_0.stage is Done ==> {
                &&& r matches Ok(model)
                &&& model.vb.buff == self->Setup_0.vb
                &&& model.ib.buff == self->Setup_0.ib
                &&& model.ib.num_indices == self.indices()@.len()
                &&& model.draws == self.draws()
                &&& model.mats == self->Setup_0.mats
            },
            r matches Ok(model) ==> model.wf() && fresh_format(
                model.vb.format,
                MeshVertex::decls(),
            ) && model.vb.format.stride == 48,
    {
        match self {
            ModelBuild::Setup(setup) => Model::new(setup),
            ModelBuild::Materials { .. } => Err(ResourceError::EmptyInput),
        }
    }
}

impl ModelBuilder {
    /// Starts building the model: with the first material, or with the
    /// setup of the model where the scene has no materials. The model is
    /// built from the vertices, indices and draws of the builder.
    pub fn build(self) -> (out: (ModelBuild, Vec<Command>))
        ensures
            out.0.wf(),
            out.0.verts() == self.verts,
            out.0.indices() == self.indices,
            out.0.draws() == self.draws,
            ModelBuild::proceeds(
                self.verts,
                self.indices,
                self.draws,
                self.materials@,
                Seq::<Material>::empty(),
                out.0,
                out.1@,
            ),
    {
        ModelBuild::proceed(self.verts, self.indices, self.draws, self.materials, Vec::new())
    }
}

/// A scene whose beginning cannot be gathered cannot be gathered, and fails
/// with the error of its beginning.
pub proof fn lemma_error_sticks(meshes: Seq<ImportedMesh>, n: int)
    requires
        0 <= n <= meshes.len(),
    ensures
        gather_error(meshes.take(n)) matches Some(e) ==> gather_error(meshes) == Some(e),
    decreases meshes.len() - n,
{
    if n < meshes.len() {
        assert(meshes.take(n + 1).drop_last() =~= meshes.take(n));
        lemma_error_sticks(meshes, n + 1);
    } else {
        assert(meshes.take(n) =~= meshes);
    }
}

} // verus!
