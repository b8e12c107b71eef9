//! Models: one vertex buffer, one index buffer, and the draws that render
//! ranges of the indices with materials.
use vstd::prelude::*;
use crate::color::Color4;
use crate::color::Color4T;
use crate::device::Event;
use crate::device::Request;
use crate::graphics::releases;
use crate::graphics::Command;
use crate::graphics::Graphics;
use crate::index_buffer::IndexBuffer;
use crate::material::Material;
use crate::native;
use crate::native::ResourceError;
use crate::native::held;
use crate::numerics::Point3F;
use crate::shader::ShaderType;
use crate::numerics::Vector2F;
use crate::numerics::Vector3F;
use crate::numerics::ZERO;
use crate::vertex_buffer::VertexBuffer;
use crate::vertex_format::ElementDecl;
use crate::vertex_format::FormatType;
use crate::vertex_format::InputClass;
use crate::vertex_format::SemanticType;
use crate::vertex_format::VertexFormat;
use crate::vertex_format::built;
use crate::vertex_format::fresh_format;

verus! {

/// Vertex format used by meshes.
#[derive(Debug, Copy, Clone, PartialEq)]
pub struct MeshVertex {
    pub pos: Point3F,
    pub norm: Vector3F,
    pub tangent: Vector3F,
    pub uv: Vector2F,
    pub color: Color4,
}

impl MeshVertex {
    /// The attributes of a mesh vertex: position, normal, tangent, texture
    /// coordinates and colour, 48 bytes in all.
    pub open spec fn decls() -> Seq<ElementDecl> {
        seq![
            ElementDecl {
                format: FormatType::R32G32B32Float,
                size_bytes: 12,
                semantic: SemanticType::Position,
                semantic_index: 0,
                input_slot: 0,
                slot_class: InputClass::PerVertex,
                instance_step_rate: 0,
            },
            ElementDecl {
                format: FormatType::R32G32B32Float,
                size_bytes: 12,
                semantic: SemanticType::Normal,
                semantic_index: 0,
                input_slot: 0,
                slot_class: InputClass::PerVertex,
                instance_step_rate: 0,
            },
            ElementDecl {
                format: FormatType::R32G32B32Float,
                size_bytes: 12,
                semantic: SemanticType::Tangent,
                semantic_index: 0,
                input_slot: 0,
                slot_class: InputClass::PerVertex,
                instance_step_rate: 0,
            },
            ElementDecl {
                format: FormatType::R32G32Float,
                size_bytes: 8,
                semantic: SemanticType::TexCoord,
                semantic_index: 0,
                input_slot: 0,
                slot_class: InputClass::PerVertex,
                instance_step_rate: 0,
            },
            ElementDecl {
                format: FormatType::R8G8B8A8UNorm,
                size_bytes: 4,
                semantic: SemanticType::TexCoord,
                semantic_index: 1,
                input_slot: 0,
                slot_class: InputClass::PerVertex,
                instance_step_rate: 0,
            },
        ]
    }

    /// The vertex at the origin, with no direction, white.
    pub open spec fn blank() -> MeshVertex {
        MeshVertex {
            pos: Point3F { x: ZERO, y: ZERO, z: ZERO },
            norm: Vector3F { x: ZERO, y: ZERO, z: ZERO },
            tangent: Vector3F { x: ZERO, y: ZERO, z: ZERO },
            uv: Vector2F { x: ZERO, y: ZERO },
            color: Color4T { r: 255u8, g: 255u8, b: 255u8, a: 255u8 },
        }
    }

    /// Gets the vertex format for this vertex type.
    pub fn get_format() -> (f: VertexFormat)
        ensures
            fresh_format(f, MeshVertex::decls()),
            f.stride == 48,
    {
        proof {
            reveal_with_fuel(built, 6);
        }
        let f = VertexFormat::new().add_new_element(
            FormatType::R32G32B32Float,
            12,
            SemanticType::Position,
            0,
            0,
            InputClass::PerVertex,
            0,
        ).add_new_element(
            FormatType::R32G32B32Float,
            12,
            SemanticType::Normal,
            0,
            0,
            InputClass::PerVertex,
            0,
        ).add_new_element(
            FormatType::R32G32B32Float,
            12,
            SemanticType::Tangent,
            0,
            0,
            InputClass::PerVertex,
            0,
        ).add_new_element(
            FormatType::R32G32Float,
            8,
            SemanticType::TexCoord,
            0,
            0,
            InputClass::PerVertex,
            0,
        ).add_new_element(
            FormatType::R8G8B8A8UNorm,
            4,
            SemanticType::TexCoord,
            1,
            0,
            InputClass::PerVertex,
            0,
        );
        assert(f@.elements =~= built(MeshVertex::decls()).elements);
        f
    }
}

impl Default for MeshVertex {
    fn default() -> (v: MeshVertex)
        ensures
            v == MeshVertex::blank(),
    {
        MeshVertex {
            pos: Point3F { x: ZERO, y: ZERO, z: ZERO },
            norm: Vector3F { x: ZERO, y: ZERO, z: ZERO },
            tangent: Vector3F { x: ZERO, y: ZERO, z: ZERO },
            uv: Vector2F { x: ZERO, y: ZERO },
            color: Color4T { r: 255u8, g: 255u8, b: 255u8, a: 255u8 },
        }
    }
}

/// The material index of a draw that has no material.
pub const UNRESOLVED_MATERIAL: u32 = 0xFFFF_FFFF;

/// Represents data for a single draw call within a model: a range of
/// `num_tris` triangles from index `start_index` on, and the material they
/// are drawn with.
#[derive(Debug, Copy, Clone, PartialEq, Eq, Structural)]
pub struct DrawData {
    pub start_index: u32,
    pub num_tris: u32,
    pub material_idx: u32,
}

impl Default for DrawData {
    fn default() -> (d: DrawData)
        ensures
            d == (DrawData { start_index: 0, num_tris: 0, material_idx: 0 }),
    {
        DrawData { start_index: 0, num_tris: 0, material_idx: 0 }
    }
}

impl DrawData {
    /// Whether the draw has a material.
    pub open spec fn resolved(self) -> bool {
        self.material_idx != UNRESOLVED_MATERIAL
    }

    /// Whether the draw stays within `num_indices` indices and, if it has a
    /// material, names one of `num_materials`.
    pub open spec fn fits(self, num_indices: int, num_materials: int) -> bool {
        &&& self.start_index + self.num_tris * 3 <= num_indices
        &&& self.resolved() ==> self.material_idx < num_materials
    }

    pub fn is_fit(&self, num_indices: usize, num_materials: usize) -> (ok: bool)
        ensures
            ok == self.fits(num_indices as int, num_materials as int),
    {
        let end: u64 = self.start_index as u64 + self.num_tris as u64 * 3;
        end <= num_indices as u64 && (self.material_idx == UNRESOLVED_MATERIAL
            || (self.material_idx as u64) < num_materials as u64)
    }
}

/// Whether every draw fits.
pub open spec fn draws_fit(draws: Seq<DrawData>, num_indices: int, num_materials: int) -> bool {
    forall|i: int| 0 <= i < draws.len() ==> (#[trigger] draws[i]).fits(num_indices, num_materials)
}

/// What the draws issue, one after the other: each selects its material
/// and then draws its indices, three for each triangle.
pub open spec fn draw_commands(draws: Seq<DrawData>, mats: Seq<Material>) -> Seq<Command>
    decreases draws.len(),
{
    if draws.len() == 0 {
        Seq::empty()
    } else {
        let draw = draws.last();
        draw_commands(draws.drop_last(), mats) + mats[draw.material_idx as int].select_commands()
            + seq![
            Command::DrawIndexed {
                index_count: (draw.num_tris * 3) as u32,
                start_index: draw.start_index,
                base_vertex: 0,
            },
        ]
    }
}

/// What giving up materials issues: the release of every object they hold,
/// the last material first.
pub open spec fn destroy_commands(mats: Seq<Material>) -> Seq<Command>
    decreases mats.len(),
{
    if mats.len() == 0 {
        Seq::empty()
    } else {
        releases(held(mats.last().objects())) + destroy_commands(mats.drop_last())
    }
}

/// Gives up materials: the commands that release what they hold.
pub fn destroy_materials(mats: Vec<Material>, commands: &mut Vec<Command>)
    ensures
        final(commands)@ == old(commands)@ + destroy_commands(mats@),
{
    let mut mats = mats;
    let ghost all = mats@;
    assert(commands@ + destroy_commands(mats@) =~= old(commands)@ + destroy_commands(all));
    while mats.len() > 0
        invariant
            commands@ + destroy_commands(mats@) == old(commands)@ + destroy_commands(all),
        decreases mats@.len(),
    {
        let ghost before = commands@;
        let ghost rest = mats@;
        let material = mats.pop().unwrap();
        let objects = material.destroy();
        let mut i: usize = 0;
        assert(commands@ =~= before + releases(objects@).take(0));
        while i < objects.len()
            invariant
                i <= objects@.len(),
                commands@ == before + releases(objects@).take(i as int),
            decreases objects@.len() - i,
        {
            commands.push(Command::Release { object: objects[i] });
            assert(commands@ =~= before + releases(objects@).take(i + 1));
            i += 1;
        }
        assert(releases(objects@).take(i as int) =~= releases(objects@));
        assert(mats@ =~= rest.drop_last());
        assert(commands@ + destroy_commands(mats@) =~= before + destroy_commands(rest));
    }
    assert(commands@ + destroy_commands(mats@) =~= commands@);
}

/// Handles the rendering of a model (clustering of meshes + materials).
#[derive(Debug, PartialEq)]
pub struct Model {
    pub vb: VertexBuffer,
    pub ib: IndexBuffer,
    pub draws: Vec<DrawData>,
    pub mats: Vec<Material>,
}

impl Model {
    /// Every draw of a model stays within its index buffer and, if it has a
    /// material, names one of the model's.
    pub open spec fn wf(&self) -> bool {
        draws_fit(self.draws@, self.ib.num_indices as int, self.mats@.len() as int)
    }

    /// A model can be drawn if each draw has a material and each material
    /// can be selected.
    pub open spec fn drawable(&self) -> bool {
        &&& forall|i: int| 0 <= i < self.draws@.len() ==> (#[trigger] self.draws@[i]).resolved()
        &&& forall|m: int| 0 <= m < self.mats@.len() ==> (#[trigger] self.mats@[m]).wf()
    }

    /// What drawing the model issues: the buffers are bound once, then each
    /// draw is issued.
    pub open spec fn commands(&self) -> Seq<Command> {
        seq![
            Command::SetVertexBuffer {
                slot: 0,
                buffer: self.vb.buff,
                stride: self.vb.format.stride,
                offset: 0,
            },
            Command::SetIndexBuffer {
                buffer: self.ib.buff,
                format: native::FORMAT_R32_UINT,
                offset: 0,
            },
        ] + draw_commands(self.draws@, self.mats@)
    }

    /// Whether the model can be drawn: its draws fit, each has a material,
    /// and each material can be selected.
    pub fn is_drawable(&self) -> (ok: bool)
        ensures
            ok == (self.wf() && self.drawable()),
    {
        if !all_fit(&self.draws, self.ib.num_indices as usize, self.mats.len()) {
            return false;
        }
        let mut i: usize = 0;
        while i < self.draws.len()
            invariant
                i <= self.draws@.len(),
                forall|k: int| 0 <= k < i ==> (#[trigger] self.draws@[k]).resolved(),
            decreases self.draws@.len() - i,
        {
            if self.draws[i].material_idx == UNRESOLVED_MATERIAL {
                return false;
            }
            i += 1;
        }
        let mut m: usize = 0;
        while m < self.mats.len()
            invariant
                m <= self.mats@.len(),
                forall|k: int| 0 <= k < m ==> (#[trigger] self.mats@[k]).wf(),
            decreases self.mats@.len() - m,
        {
            let vertex = match self.mats[m].vs.shader_type() {
                ShaderType::Vertex => true,
                ShaderType::Pixel => false,
            };
            let pixel = match self.mats[m].ps.shader_type() {
                ShaderType::Vertex => false,
                ShaderType::Pixel => true,
            };
            if !vertex || !pixel {
                return false;
            }
            m += 1;
        }
        true
    }

    /// Draws the model.
    pub fn draw(&self, gfx: &mut Graphics)
        requires
            self.wf(),
            self.drawable(),
        ensures
            final(gfx).issued(*old(gfx), self.commands()),
    {
        gfx.set_vertex_buffer(&self.vb, 0);
        gfx.set_index_buffer(&self.ib);
        let ghost bound = gfx.commands@;
        let mut i: usize = 0;
        assert(self.draws@.take(0) =~= Seq::<DrawData>::empty());
        assert(gfx.commands@ =~= bound + draw_commands(self.draws@.take(0), self.mats@));
        while i < self.draws.len()
            invariant
                i <= self.draws@.len(),
                self.wf(),
                self.drawable(),
                gfx.device == old(gfx).device,
                gfx.context == old(gfx).context,
                gfx.commands@ == bound + draw_commands(self.draws@.take(i as int), self.mats@),
            decreases self.draws@.len() - i,
        {
            let draw = &self.draws[i];
            assert(self.draws@[i as int].fits(
                self.ib.num_indices as int,
                self.mats@.len() as int,
            ));
            assert(self.draws@[i as int].resolved());
            let mat = &self.mats[draw.material_idx as usize];
            mat.select(gfx);
            gfx.draw_indexed(draw.num_tris * 3, draw.start_index);
            assert(self.draws@.take(i + 1).drop_last() =~= self.draws@.take(i as int));
            assert(gfx.commands@ =~= bound + draw_commands(self.draws@.take(i + 1), self.mats@));
            i += 1;
        }
        assert(self.draws@.take(i as int) =~= self.draws@);
        assert(gfx.commands@ =~= old(gfx).commands@ + self.commands());
    }

    /// Takes the model apart: the commands that release what it holds, the
    /// buffers first.
    pub fn destroy(self) -> (commands: Vec<Command>)
        ensures
            commands@ == releases(held(seq![self.vb.buff, self.ib.buff])) + destroy_commands(
                self.mats@,
            ),
    {
        let mut commands: Vec<Command> = Vec::new();
        let ghost all = seq![self.vb.buff, self.ib.buff];
        assert(held(all.take(0)) =~= Seq::<u64>::empty()) by {
            assert(all.take(0) =~= Seq::<u64>::empty());
        }
        assert(commands@ =~= releases(held(all.take(0))));
        if self.vb.buff != 0 {
            commands.push(Command::Release { object: self.vb.buff });
        }
        assert(all.take(1).drop_last() =~= all.take(0));
        assert(commands@ =~= releases(held(all.take(1))));
        if self.ib.buff != 0 {
            commands.push(Command::Release { object: self.ib.buff });
        }
        assert(all.take(2).drop_last() =~= all.take(1));
        assert(commands@ =~= releases(held(all.take(2))));
        assert(all.take(2) =~= all);
        destroy_materials(self.mats, &mut commands);
        commands
    }
}

/// Whether a vertex buffer for `num_verts` mesh vertices can be asked
/// for: the count must fit 32 bits, and so must the bytes.
pub open spec fn vertex_check(num_verts: int) -> Result<native::BufferRequest, ResourceError> {
    if num_verts > u32::MAX {
        Err(ResourceError::TooLarge)
    } else {
        VertexBuffer::checked(48, num_verts as u32)
    }
}

/// Where the setup of a model stands.
#[derive(Debug, PartialEq)]
pub enum ModelStage {
    CreateVertexBuffer,
    CreateIndexBuffer,
    Done,
    Failed(ResourceError),
}

/// The way from vertices, indices, draws and materials to a model: the
/// draws are checked, then the vertex buffer is created, then the index
/// buffer. Where any of it fails, all that was created or handed in is
/// released.
#[derive(Debug, PartialEq)]
pub struct ModelSetup {
    pub stage: ModelStage,
    pub verts: Vec<MeshVertex>,
    pub indices: Vec<u32>,
    pub draws: Vec<DrawData>,
    pub mats: Vec<Material>,
    pub vb: u64,
    pub ib: u64,
}

impl ModelSetup {
    /// The invariant of a setup: while it has not failed, the draws fit
    /// and the buffers asked for so far could be asked for; once it has
    /// failed, it holds nothing.
    pub open spec fn wf(&self) -> bool {
        match self.stage {
            ModelStage::CreateVertexBuffer => {
                &&& self.fit()
                &&& vertex_check(self.verts@.len() as int) is Ok
                &&& self.vb == 0
                &&& self.ib == 0
            },
            ModelStage::CreateIndexBuffer => {
                &&& self.fit()
                &&& IndexBuffer::checked(self.indices@.len() as int) is Ok
                &&& self.ib == 0
            },
            ModelStage::Done => {
                &&& self.fit()
                &&& IndexBuffer::checked(self.indices@.len() as int) is Ok
            },
            ModelStage::Failed(_) => self.mats@.len() == 0 && self.vb == 0 && self.ib == 0,
        }
    }

    /// Whether the draws fit the indices and materials of the setup.
    pub open spec fn fit(&self) -> bool {
        draws_fit(self.draws@, self.indices@.len() as int, self.mats@.len() as int)
    }

    /// Whether the setup has come to its end.
    pub open spec fn finished(&self) -> bool {
        self.stage is Done || self.stage is Failed
    }

    /// Whether `next` is this setup failed with `error`, and `commands`
    /// release the vertex buffer and the materials.
    pub open spec fn fails(&self, error: ResourceError, vb: u64, next: ModelSetup, commands: Seq<Command>)
        -> bool {
        &&& next.stage == ModelStage::Failed(error)
        &&& next.verts == self.verts
        &&& next.indices == self.indices
        &&& next.draws == self.draws
        &&& next.mats@ == Seq::<Material>::empty()
        &&& next.vb == 0
        &&& next.ib == 0
        &&& commands == releases(held(seq![vb])) + destroy_commands(self.mats@)
    }

    /// Whether `next` and `commands` are what follows when `event` answers
    /// the pending request.
    pub open spec fn step(&self, event: Event, next: ModelSetup, commands: Seq<Command>) -> bool {
        let reply = event->Object_0;
        match self.stage {
            ModelStage::CreateVertexBuffer => if !reply.succeeded() {
                self.fails(ResourceError::Rejected(reply.status), 0, next, commands)
            } else {
                match IndexBuffer::checked(self.indices@.len() as int) {
                    Err(e) => self.fails(e, reply.object, next, commands),
                    Ok(_) => {
                        &&& next == (ModelSetup {
                            stage: ModelStage::CreateIndexBuffer,
                            vb: reply.object,
                            ..*self
                        })
                        &&& commands == Seq::<Command>::empty()
                    },
                }
            },
            ModelStage::CreateIndexBuffer => if !reply.succeeded() {
                self.fails(ResourceError::Rejected(reply.status), self.vb, next, commands)
            } else {
                &&& next == (ModelSetup { stage: ModelStage::Done, ib: reply.object, ..*self })
                &&& commands == Seq::<Command>::empty()
            },
            ModelStage::Done => false,
            ModelStage::Failed(_) => false,
        }
    }

    /// Ends the setup with `error`.
    fn fail(self, error: ResourceError, vb: u64) -> (out: (ModelSetup, Vec<Command>))
        ensures
            self.fails(error, vb, out.0, out.1@),
            out.0.wf(),
    {
        let ModelSetup { stage: _, verts, indices, draws, mats, vb: _, ib: _ } = self;
        let mut commands: Vec<Command> = Vec::new();
        proof {
            native::lemma_held_one(vb);
        }
        if vb != 0 {
            commands.push(Command::Release { object: vb });
        }
        assert(commands@ =~= releases(held(seq![vb])));
        destroy_materials(mats, &mut commands);
        (
            ModelSetup {
                stage: ModelStage::Failed(error),
                verts,
                indices,
                draws,
                mats: Vec::new(),
                vb: 0,
                ib: 0,
            },
            commands,
        )
    }

    /// Whether `setup` and `commands` are what starting a setup with these
    /// parts gives. Draws that do not fit fail it at once with
    /// `InvalidDraw`, vertices beyond what a buffer holds with `TooLarge`;
    /// the materials are released then.
    pub open spec fn starts(
        verts: Vec<MeshVertex>,
        indices: Vec<u32>,
        draws: Vec<DrawData>,
        mats: Seq<Material>,
        setup: ModelSetup,
        commands: Seq<Command>,
    ) -> bool {
        let error = if !draws_fit(draws@, indices@.len() as int, mats.len() as int) {
            Some(ResourceError::InvalidDraw)
        } else {
            match vertex_check(verts@.len() as int) {
                Err(e) => Some(e),
                Ok(_) => None,
            }
        };
        &&& setup.verts == verts
        &&& setup.indices == indices
        &&& setup.draws == draws
        &&& setup.vb == 0
        &&& setup.ib == 0
        &&& match error {
            Some(e) => {
                &&& setup.stage == ModelStage::Failed(e)
                &&& setup.mats@ == Seq::<Material>::empty()
                &&& commands == destroy_commands(mats)
            },
            None => {
                &&& setup.stage is CreateVertexBuffer
                &&& setup.mats@ == mats
                &&& commands == Seq::<Command>::empty()
            },
        }
    }

    /// A setup that has failed with `error` before anything was created.
    pub fn failed(error: ResourceError, verts: Vec<MeshVertex>, indices: Vec<u32>, draws: Vec<DrawData>)
        -> (setup: ModelSetup)
        ensures
            setup.wf(),
            setup.stage == ModelStage::Failed(error),
            setup.verts == verts,
            setup.indices == indices,
            setup.draws == draws,
            setup.mats@ == Seq::<Material>::empty(),
            setup.vb == 0,
            setup.ib == 0,
    {
        ModelSetup {
            stage: ModelStage::Failed(error),
            verts,
            indices,
            draws,
            mats: Vec::new(),
            vb: 0,
            ib: 0,
        }
    }

    /// Starts the setup of a model.
    pub fn start(verts: Vec<MeshVertex>, indices: Vec<u32>, draws: Vec<DrawData>, mats: Vec<Material>)
        -> (out: (ModelSetup, Vec<Command>))
        ensures
            out.0.wf(),
            ModelSetup::starts(verts, indices, draws, mats@, out.0, out.1@),
    {
        let setup = ModelSetup {
            stage: ModelStage::CreateVertexBuffer,
            verts,
            indices,
            draws,
            mats,
            vb: 0,
            ib: 0,
        };
        assert(releases(held(seq![0u64])) =~= Seq::<Command>::empty()) by {
            native::lemma_held_one(0);
        }
        if !all_fit(&setup.draws, setup.indices.len(), setup.mats.len()) {
            return setup.fail(ResourceError::InvalidDraw, 0);
        }
        let count: usize = setup.verts.len();
        if count > u32::MAX as usize {
            return setup.fail(ResourceError::TooLarge, 0);
        }
        let format = MeshVertex::get_format();
        match VertexBuffer::request(&format, count as u32) {
            Err(e) => setup.fail(e, 0),
            Ok(_) => (setup, Vec::new()),
        }
    }

    /// Whether `r` is the request that the setup waits for: the vertex
    /// buffer, for mesh vertices and with the vertices of the setup as its
    /// contents; then the index buffer with the indices; and nothing at the
    /// end.
    pub open spec fn asks(&self, r: Option<Request>) -> bool {
        match self.stage {
            ModelStage::CreateVertexBuffer => r == Some(
                Request::CreateBuffer { request: vertex_check(self.verts@.len() as int)->Ok_0 },
            ),
            ModelStage::CreateIndexBuffer => r == Some(
                Request::CreateBuffer {
                    request: IndexBuffer::checked(self.indices@.len() as int)->Ok_0,
                },
            ),
            ModelStage::Done => r is None,
            ModelStage::Failed(_) => r is None,
        }
    }

    /// The request to perform next; none once the setup has ended.
    pub fn request(&self) -> (r: Option<Request>)
        requires
            self.wf(),
        ensures
            self.asks(r),
            self.finished() <==> r is None,
            r matches Some(request) ==> forall|event: Event|
                request.answered_by(event) == (event is Object),
    {
        match self.stage {
            ModelStage::CreateVertexBuffer => {
                let format = MeshVertex::get_format();
                match VertexBuffer::request(&format, self.verts.len() as u32) {
                    Ok(request) => Some(Request::CreateBuffer { request }),
                    Err(_) => None,
                }
            },
            ModelStage::CreateIndexBuffer => match IndexBuffer::request(self.indices.as_slice()) {
                Ok(request) => Some(Request::CreateBuffer { request }),
                Err(_) => None,
            },
            ModelStage::Done => None,
            ModelStage::Failed(_) => None,
        }
    }

    /// Takes the answer to the pending request. Beside the next state
    /// stand the commands to perform.
    pub fn advance(self, event: Event) -> (out: (ModelSetup, Vec<Command>))
        requires
            self.wf(),
            !self.finished(),
            event is Object,
        ensures
            out.0.wf(),
            self.step(event, out.0, out.1@),
    {
        let reply = match event {
            Event::Object(reply) => reply,
            _ => {
                return (self, Vec::new());
            },
        };
        match self.stage {
            ModelStage::CreateVertexBuffer => {
                if !reply.is_ok() {
                    self.fail(ResourceError::Rejected(reply.status), 0)
                } else {
                    match IndexBuffer::request(self.indices.as_slice()) {
                        Err(e) => self.fail(e, reply.object),
                        Ok(_) => {
                            let mut next = self;
                            next.stage = ModelStage::CreateIndexBuffer;
                            next.vb = reply.object;
                            (next, Vec::new())
                        },
                    }
                }
            },
            ModelStage::CreateIndexBuffer => {
                if !reply.is_ok() {
                    let vb: u64 = self.vb;
                    self.fail(ResourceError::Rejected(reply.status), vb)
                } else {
                    let mut next = self;
                    next.stage = ModelStage::Done;
                    next.ib = reply.object;
                    (next, Vec::new())
                }
            },
            ModelStage::Done => (self, Vec::new()),
            ModelStage::Failed(_) => (self, Vec::new()),
        }
    }
}

/// Checks every draw against the indices and materials of a model.
pub fn all_fit(draws: &Vec<DrawData>, num_indices: usize, num_materials: usize) -> (ok: bool)
    ensures
        ok == draws_fit(draws@, num_indices as int, num_materials as int),
{
    let mut i: usize = 0;
    while i < draws.len()
        invariant
            i <= draws@.len(),
            forall|k: int|
                0 <= k < i ==> (#[trigger] draws@[k]).fits(num_indices as int, num_materials as int),
        decreases draws@.len() - i,
    {
        if !draws[i].is_fit(num_indices, num_materials) {
            return false;
        }
        i += 1;
    }
    true
}

impl Model {
    /// The model that a finished setup gives. Its draws fit.
    pub fn new(setup: ModelSetup) -> (r: Result<Model, ResourceError>)
        requires
            setup.wf(),
            setup.finished(),
        ensures
            setup.stage matches ModelStage::Failed(e) ==> r == Err::<Model, ResourceError>(e),
            setup.stage is Done ==> r == Ok::<Model, ResourceError>(
                Model {
                    vb: VertexBuffer { format: r->Ok_0.vb.format, buff: setup.vb },
                    ib: IndexBuffer { buff: setup.ib, num_indices: setup.indices@.len() as u32 },
                    draws: setup.draws,
                    mats: setup.mats,
                },
            ),
            r matches Ok(model) ==> model.wf() && fresh_format(
                model.vb.format,
                MeshVertex::decls(),
            ) && model.vb.format.stride == 48,
    {
        match setup.stage {
            ModelStage::Failed(e) => Err(e),
            _ => {
                let num_indices: usize = setup.indices.len();
                Ok(
                    Model {
                        vb: VertexBuffer { format: MeshVertex::get_format(), buff: setup.vb },
                        ib: IndexBuffer { buff: setup.ib, num_indices: num_indices as u32 },
                        draws: setup.draws,
                        mats: setup.mats,
                    },
                )
            },
        }
    }
}

} // verus!
