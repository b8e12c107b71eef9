//! Materials: a shader pair, the input layout that feeds it, a primitive
//! topology and the textures bound to the pixel shader; and the loading of
//! a material from its description.
use vstd::prelude::*;
use crate::device::Event;
use crate::device::Request;
use crate::graphics::Command;
use crate::graphics::Graphics;
use crate::graphics::PrimitiveTopology;
use crate::input_layout::InputLayout;
use crate::input_layout::translatable;
use crate::graphics::releases;
use crate::shader_compiler::CompileReply;
use crate::native::CompileError;
use crate::native;
use crate::native::ResourceError;
use crate::native::held;
use crate::native::push_held;
use crate::shader::Shader;
use crate::shader::ShaderType;
use crate::shader_compiler::ShaderCode;
use crate::shader_compiler::ShaderCompiler;
use crate::shader_input::ShaderInput;
use crate::texture::Texture;
use crate::texture::TextureLoad;
use crate::vertex_format::VertexFormat;

verus! {

/// A texture of a material description: the name under which the shader
/// knows it, and the file that holds it.
#[derive(Debug, PartialEq)]
pub struct TextureRef {
    pub name: String,
    pub path: String,
}

/// Data needed to load a material.
#[derive(Debug, PartialEq)]
pub struct MaterialInfo {
    pub shader_file: String,
    pub vert_format: VertexFormat,
    pub topology: PrimitiveTopology,
    pub textures: Vec<TextureRef>,
}

impl MaterialInfo {
    /// No two textures of a description share a name.
    pub open spec fn wf(&self) -> bool {
        forall|i: int, j: int|
            0 <= i < j < self.textures@.len() ==> self.textures@[i].name@ != self.textures@[j].name@
    }

    /// A description without textures.
    pub fn new(shader_file: String, vert_format: VertexFormat, topology: PrimitiveTopology) -> (info:
        MaterialInfo)
        ensures
            info.wf(),
            info.shader_file == shader_file,
            info.vert_format == vert_format,
            info.topology == topology,
            info.textures@.len() == 0,
    {
        MaterialInfo { shader_file, vert_format, topology, textures: Vec::new() }
    }

    /// Names the file at `path` as the texture `name`. Where the
    /// description has a texture of that name, the texture keeps its place
    /// and gets the new file, and the file it had is returned; else the
    /// texture joins the description as its last.
    pub fn insert(&mut self, name: String, path: String) -> (previous: Option<String>)
        requires
            old(self).wf(),
        ensures
            final(self).wf(),
            final(self).shader_file == old(self).shader_file,
            final(self).vert_format == old(self).vert_format,
            final(self).topology == old(self).topology,
            match named_entry(old(self).textures@, name@, 0) {
                Some(entry) => {
                    &&& previous == Some(old(self).textures@[entry].path)
                    &&& final(self).textures@ == old(self).textures@.update(
                        entry,
                        TextureRef { name: old(self).textures@[entry].name, path },
                    )
                },
                None => {
                    &&& previous is None
                    &&& final(self).textures@ == old(self).textures@.push(TextureRef { name, path })
                },
            },
    {
        let mut entry: usize = 0;
        while entry < self.textures.len()
            invariant
                *self == *old(self),
                old(self).wf(),
                named_entry(self.textures@, name@, 0) == named_entry(
                    self.textures@,
                    name@,
                    entry as int,
                ),
            decreases self.textures@.len() - entry,
        {
            if self.textures[entry].name == name {
                let mut textures: Vec<TextureRef> = Vec::new();
                core::mem::swap(&mut textures, &mut self.textures);
                let mut rest = textures.split_off(entry);
                let found = rest.remove(0);
                textures.push(TextureRef { name: found.name, path });
                textures.append(&mut rest);
                self.textures = textures;
                assert(self.textures@ =~= old(self).textures@.update(
                    entry as int,
                    TextureRef { name: old(self).textures@[entry as int].name, path },
                ));
                assert forall|i: int, j: int| 0 <= i < j < self.textures@.len() implies self.textures@[i].name@
                    != self.textures@[j].name@ by {
                    assert(self.textures@[i].name == old(self).textures@[i].name);
                    assert(self.textures@[j].name == old(self).textures@[j].name);
                }
                return Some(found.path);
            }
            entry += 1;
        }
        proof {
            lemma_not_named(self.textures@, name@, 0);
        }
        self.textures.push(TextureRef { name, path });
        None
    }

    /// The file of the texture `name`, if the description has one.
    pub fn get(&self, name: &String) -> (path: Option<&String>)
        ensures
            match named_entry(self.textures@, name@, 0) {
                Some(entry) => path == Some(&self.textures@[entry].path),
                None => path is None,
            },
    {
        let mut entry: usize = 0;
        while entry < self.textures.len()
            invariant
                named_entry(self.textures@, name@, 0) == named_entry(
                    self.textures@,
                    name@,
                    entry as int,
                ),
            decreases self.textures@.len() - entry,
        {
            if self.textures[entry].name == *name {
                return Some(&self.textures[entry].path);
            }
            entry += 1;
        }
        None
    }
}

/// A name that is not found among the textures is none of theirs.
pub proof fn lemma_not_named(refs: Seq<TextureRef>, name: Seq<char>, from: int)
    requires
        0 <= from,
        named_entry(refs, name, from) is None,
    ensures
        forall|k: int| from <= k < refs.len() ==> refs[k].name@ != name,
    decreases refs.len() - from,
{
    if from < refs.len() {
        lemma_not_named(refs, name, from + 1);
    }
}

/// The pixel-shader slot of the texture named `albedo_map`.
pub const ALBEDO_SLOT: u32 = 0;

/// The commands that bind shader inputs to their pixel-shader slots, in
/// order.
pub open spec fn input_commands(inputs: Seq<(u32, ShaderInput)>) -> Seq<Command> {
    inputs.map_values(
        |input: (u32, ShaderInput)| Command::SetPsShaderInput { slot: input.0, view: input.1.srv },
    )
}

/// The native objects of a list of textures, in order.
pub open spec fn texture_objects(textures: Seq<Texture>) -> Seq<u64> {
    textures.map_values(|texture: Texture| texture.res)
}

/// The native objects of a list of shader inputs, in order.
pub open spec fn input_objects(inputs: Seq<(u32, ShaderInput)>) -> Seq<u64> {
    inputs.map_values(|input: (u32, ShaderInput)| input.1.srv)
}

/// Data for rendering a graphical object.
#[derive(Debug, PartialEq)]
pub struct Material {
    pub vs: Shader,
    pub ps: Shader,
    pub layout: InputLayout,
    pub topology: PrimitiveTopology,
    pub textures: Vec<Texture>,
    pub ps_inputs: Vec<(u32, ShaderInput)>,
}

impl Material {
    /// A material can be selected if each of its shaders was built for the
    /// stage it is bound to.
    pub open spec fn wf(&self) -> bool {
        &&& self.vs is Vertex
        &&& self.ps is Pixel
    }

    /// What selecting the material issues: input layout, topology, vertex
    /// shader, pixel shader, then each texture input, in that order.
    pub open spec fn select_commands(&self) -> Seq<Command> {
        seq![
            Command::SetInputLayout { layout: self.layout.data },
            Command::SetPrimitiveTopology { topology: self.topology.native() },
            Command::SetVertexShader { shader: self.vs.object() },
            Command::SetPixelShader { shader: self.ps.object() },
        ] + input_commands(self.ps_inputs@)
    }

    /// Every native object the material owns: the shaders, the layout, the
    /// textures and the shader inputs, in that order; null where it holds
    /// none.
    pub open spec fn objects(&self) -> Seq<u64> {
        seq![self.vs.object(), self.ps.object(), self.layout.data] + texture_objects(
            self.textures@,
        ) + input_objects(self.ps_inputs@)
    }

    /// Creates a new material.
    pub fn create(
        vs: Shader,
        ps: Shader,
        topology: PrimitiveTopology,
        layout: InputLayout,
        textures: Vec<Texture>,
        ps_inputs: Vec<(u32, ShaderInput)>,
    ) -> (m: Material)
        ensures
            m == (Material { vs, ps, layout, topology, textures, ps_inputs }),
    {
        Material { vs, ps, layout, topology, textures, ps_inputs }
    }

    /// The material that a finished load gives: the shaders tagged with
    /// their stages, the layout, the described topology, and the textures
    /// and inputs loaded. A failed load gives its error.
    pub fn load(loader: MaterialLoader) -> (r: Result<Material, ResourceError>)
        requires
            loader.finished(),
        ensures
            loader.stage matches LoadStage::Failed(e) ==> r == Err::<Material, ResourceError>(e),
            loader.stage is Done ==> r == Ok::<Material, ResourceError>(
                Material {
                    vs: Shader::Vertex(loader.vs),
                    ps: Shader::Pixel(loader.ps),
                    layout: InputLayout { data: loader.layout },
                    topology: loader.info.topology,
                    textures: loader.textures,
                    ps_inputs: loader.ps_inputs,
                },
            ),
            r matches Ok(material) ==> material.wf(),
    {
        match loader.stage {
            LoadStage::Failed(e) => Err(e),
            _ => Ok(
                Material::create(
                    Shader::Vertex(loader.vs),
                    Shader::Pixel(loader.ps),
                    loader.info.topology,
                    InputLayout { data: loader.layout },
                    loader.textures,
                    loader.ps_inputs,
                ),
            ),
        }
    }

    /// Sets up the material for the graphics pipeline.
    pub fn select(&self, gfx: &mut Graphics)
        requires
            self.wf(),
        ensures
            final(gfx).issued(*old(gfx), self.select_commands()),
    {
        gfx.set_input_layout(&self.layout);
        gfx.set_primitive_topology(self.topology);
        gfx.set_vertex_shader(&self.vs);
        gfx.set_pixel_shader(&self.ps);
        let ghost fixed = gfx.commands@;
        assert(fixed =~= old(gfx).commands@ + self.select_commands().take(4));
        let mut i: usize = 0;
        while i < self.ps_inputs.len()
            invariant
                i <= self.ps_inputs@.len(),
                gfx.device == old(gfx).device,
                gfx.context == old(gfx).context,
                gfx.commands@ == fixed + input_commands(self.ps_inputs@).take(i as int),
            decreases self.ps_inputs@.len() - i,
        {
            let slot: u32 = self.ps_inputs[i].0;
            gfx.set_ps_shader_input(slot, &self.ps_inputs[i].1);
            assert(gfx.commands@ =~= fixed + input_commands(self.ps_inputs@).take(i + 1));
            i += 1;
        }
        assert(gfx.commands@ =~= old(gfx).commands@ + self.select_commands());
    }

    /// Changes the primitive topology of the material.
    pub fn set_primitive_topology(&mut self, topology: PrimitiveTopology)
        ensures
            *final(self) == (Material { topology, ..*old(self) }),
    {
        self.topology = topology;
    }

    /// Takes the material apart and hands over the native objects it owned,
    /// each to be released once; null objects are left out.
    pub fn destroy(self) -> (released: Vec<u64>)
        ensures
            released@ == held(self.objects()),
    {
        let mut released: Vec<u64> = Vec::new();
        let ghost all = self.objects();
        assert(all.take(0) =~= Seq::<u64>::empty());
        push_held(&mut released, self.vs.handle(), Ghost(all), Ghost(0));
        push_held(&mut released, self.ps.handle(), Ghost(all), Ghost(1));
        push_held(&mut released, self.layout.data, Ghost(all), Ghost(2));
        let mut i: usize = 0;
        while i < self.textures.len()
            invariant
                i <= self.textures@.len(),
                all == self.objects(),
                released@ == held(all.take(3 + i)),
            decreases self.textures@.len() - i,
        {
            push_held(&mut released, self.textures[i].res, Ghost(all), Ghost(3 + i as int));
            i += 1;
        }
        let mut k: usize = 0;
        let ghost base = 3 + self.textures@.len();
        while k < self.ps_inputs.len()
            invariant
                k <= self.ps_inputs@.len(),
                all == self.objects(),
                base == 3 + self.textures@.len(),
                released@ == held(all.take(base + k)),
            decreases self.ps_inputs@.len() - k,
        {
            push_held(&mut released, self.ps_inputs[k].1.srv, Ghost(all), Ghost(base + k));
            k += 1;
        }
        assert(all.take(base + k) =~= all);
        released
    }
}

/// The place among the loaded textures of the one that was loaded from
/// `path`, searched from place `from` on; `sources` names, for each loaded
/// texture, the entry of `refs` it was loaded for.
pub open spec fn loaded_from(refs: Seq<TextureRef>, sources: Seq<usize>, path: Seq<char>, from: int)
    -> Option<int>
    decreases sources.len() - from,
{
    if from < 0 || from >= sources.len() {
        None
    } else if refs[sources[from] as int].path@ == path {
        Some(from)
    } else {
        loaded_from(refs, sources, path, from + 1)
    }
}

/// Whether one of the first `upto` entries names the file at `path`.
pub open spec fn occurs_before(refs: Seq<TextureRef>, path: Seq<char>, upto: int) -> bool
    decreases upto,
{
    if upto <= 0 {
        false
    } else {
        refs[upto - 1].path@ == path || occurs_before(refs, path, upto - 1)
    }
}

/// The first entry from `from` on whose file no earlier entry names:
/// the next file to load. A file is loaded for the first entry that names
/// it, whether or not that load gives a texture.
pub open spec fn next_entry(refs: Seq<TextureRef>, from: int) -> Option<int>
    decreases refs.len() - from,
{
    if from < 0 || from >= refs.len() {
        None
    } else if !occurs_before(refs, refs[from].path@, from) {
        Some(from)
    } else {
        next_entry(refs, from + 1)
    }
}

/// The first entry from `from` on that has the name `name`.
pub open spec fn named_entry(refs: Seq<TextureRef>, name: Seq<char>, from: int) -> Option<int>
    decreases refs.len() - from,
{
    if from < 0 || from >= refs.len() {
        None
    } else if refs[from].name@ == name {
        Some(from)
    } else {
        named_entry(refs, name, from + 1)
    }
}

/// The loaded texture that the pixel shader reads as its albedo map: the
/// one loaded from the file of the entry named `albedo_map`. There is none
/// where no entry has that name or its file was not loaded.
pub open spec fn albedo_texture(refs: Seq<TextureRef>, sources: Seq<usize>) -> Option<int> {
    match named_entry(refs, "albedo_map"@, 0) {
        Some(entry) => loaded_from(refs, sources, refs[entry].path@, 0),
        None => None,
    }
}

/// Where the loading of a material stands: at the request it waits for, or
/// at its end.
#[derive(Debug, PartialEq)]
pub enum LoadStage {
    CompileVertex,
    CompilePixel,
    CreateVertexShader,
    CreatePixelShader,
    CreateLayout,
    /// Loading the texture of entry `entry`.
    LoadTexture { entry: usize, load: TextureLoad },
    /// Waiting for the shader input of the loaded texture `texture`.
    BindAlbedo { texture: usize },
    Done,
    Failed(ResourceError),
}

/// The loading of a material, from its description to the material. The
/// shaders are compiled from the entry points `VSMain` and `PSMain` of the
/// described file and created, then the input layout; a failure of any of
/// these fails the load. Then the file of each texture entry is loaded,
/// unless an earlier entry names the same file: each file is loaded once,
/// however many entries name it. A texture that cannot be loaded is left
/// out. Last, the texture named `albedo_map` is bound to slot 0 of the
/// pixel shader, if it was loaded.
///
/// Objects the load holds are null until obtained and after their release.
#[derive(Debug, PartialEq)]
pub struct MaterialLoader {
    pub info: MaterialInfo,
    pub stage: LoadStage,
    pub vs_code: u64,
    pub ps_code: u64,
    pub vs: u64,
    pub ps: u64,
    pub layout: u64,
    pub textures: Vec<Texture>,
    /// For each loaded texture, the entry it was loaded for.
    pub sources: Vec<usize>,
    pub ps_inputs: Vec<(u32, ShaderInput)>,
}

impl MaterialLoader {
    /// The part of the invariant that speaks of the loaded textures: they
    /// come from entries of the description, no two from the same file.
    pub open spec fn lists_wf(&self) -> bool {
        &&& self.sources@.len() == self.textures@.len()
        &&& forall|k: int|
            0 <= k < self.sources@.len() ==> #[trigger] self.sources@[k] < self.info.textures@.len()
        &&& forall|j: int, k: int|
            0 <= j < k < self.sources@.len() ==> self.info.textures@[self.sources@[j] as int].path@
                != self.info.textures@[self.sources@[k] as int].path@
    }

    /// The invariant of a load: the loaded textures come from entries of
    /// the description, no two of them from the same file; a texture is
    /// loaded for the first entry that names its file, and the loaded ones
    /// come from entries before it; and a layout is only asked for a format
    /// that translates, with code that exists.
    pub open spec fn wf(&self) -> bool {
        &&& self.lists_wf()
        &&& match self.stage {
            LoadStage::CompileVertex => self.bare() && self.shader_objects() == seq![
                0u64,
                0u64,
                0u64,
                0u64,
            ],
            LoadStage::CompilePixel => self.bare() && self.vs_code != 0 && self.ps_code == 0
                && self.vs == 0 && self.ps == 0,
            LoadStage::CreateVertexShader => self.bare() && self.vs_code != 0 && self.ps_code != 0
                && self.vs == 0 && self.ps == 0,
            LoadStage::CreatePixelShader => self.bare() && self.vs_code != 0 && self.ps_code != 0
                && self.ps == 0,
            LoadStage::CreateLayout => self.bare() && self.vs_code != 0 && translatable(
                self.info.vert_format,
            ),
            LoadStage::LoadTexture { entry, load } => {
                &&& entry < self.info.textures@.len()
                &&& load.wf()
                &&& !(load is Done)
                &&& load matches TextureLoad::LoadImage { path } ==> path@
                    == self.info.textures@[entry as int].path@
                &&& !occurs_before(
                    self.info.textures@,
                    self.info.textures@[entry as int].path@,
                    entry as int,
                )
                &&& self.sources_before(entry as int)
            },
            LoadStage::BindAlbedo { texture } => texture < self.textures@.len(),
            LoadStage::Done => self.vs_code == 0 && self.ps_code == 0,
            LoadStage::Failed(_) => {
                &&& self.vs_code == 0
                &&& self.ps_code == 0
                &&& self.vs == 0
                &&& self.ps == 0
                &&& self.layout == 0
                &&& self.textures@.len() == 0
                &&& self.ps_inputs@.len() == 0
            },
        }
    }

    /// Whether the load holds neither layout nor textures nor inputs yet.
    pub open spec fn bare(&self) -> bool {
        &&& self.layout == 0
        &&& self.textures@.len() == 0
        &&& self.ps_inputs@.len() == 0
    }

    /// Whether the load has come to its end.
    pub open spec fn finished(&self) -> bool {
        self.stage is Done || self.stage is Failed
    }

    /// Whether every loaded texture comes from one of the first `upto`
    /// entries.
    pub open spec fn sources_before(&self, upto: int) -> bool {
        forall|k: int| 0 <= k < self.sources@.len() ==> #[trigger] self.sources@[k] < upto
    }

    /// Whether `event` answers what the load waits for.
    pub open spec fn expects(&self, event: Event) -> bool {
        match self.stage {
            LoadStage::CompileVertex => event is Compiled,
            LoadStage::CompilePixel => event is Compiled,
            LoadStage::CreateVertexShader => event is Object,
            LoadStage::CreatePixelShader => event is Object,
            LoadStage::CreateLayout => event is Object,
            LoadStage::LoadTexture { load, .. } => load.expects(event),
            LoadStage::BindAlbedo { .. } => event is Object,
            LoadStage::Done => false,
            LoadStage::Failed(_) => false,
        }
    }

    /// The shader objects the load holds, the latest first.
    pub open spec fn shader_objects(&self) -> Seq<u64> {
        seq![self.ps, self.vs, self.ps_code, self.vs_code]
    }

    /// Whether `loader` is the load of `info` at its start: it waits for
    /// the vertex shader's code and holds nothing.
    pub open spec fn starts(info: MaterialInfo, loader: MaterialLoader) -> bool {
        &&& loader.info == info
        &&& loader.stage is CompileVertex
        &&& loader.shader_objects() == seq![0u64, 0u64, 0u64, 0u64]
        &&& loader.layout == 0
        &&& loader.textures@.len() == 0
        &&& loader.sources@.len() == 0
        &&& loader.ps_inputs@.len() == 0
    }

    pub fn is_finished(&self) -> (done: bool)
        ensures
            done == self.finished(),
    {
        match self.stage {
            LoadStage::Done => true,
            LoadStage::Failed(_) => true,
            _ => false,
        }
    }

    /// Starts loading the material that `info` describes.
    pub fn start(info: MaterialInfo) -> (loader: MaterialLoader)
        ensures
            loader.wf(),
            MaterialLoader::starts(info, loader),
    {
        MaterialLoader {
            info,
            stage: LoadStage::CompileVertex,
            vs_code: 0,
            ps_code: 0,
            vs: 0,
            ps: 0,
            layout: 0,
            textures: Vec::new(),
            sources: Vec::new(),
            ps_inputs: Vec::new(),
        }
    }

    /// The load as it stands once it has failed with `error`: it holds
    /// nothing any more.
    pub open spec fn failed(&self, error: ResourceError) -> MaterialLoader {
        MaterialLoader {
            stage: LoadStage::Failed(error),
            vs_code: 0,
            ps_code: 0,
            vs: 0,
            ps: 0,
            ..*self
        }
    }

    /// Whether `next` and `commands` are what follows once the shaders and
    /// the layout stand, `textures` are loaded from the entries `sources`,
    /// and the entries before `from` are dealt with. The file of the next
    /// entry that names a file no earlier entry names is loaded; after the
    /// last, the albedo map is bound if it was loaded; else the load is
    /// done, and the compiled code is released, the pixel shader's first.
    pub open spec fn settled(
        &self,
        next: MaterialLoader,
        commands: Seq<Command>,
        textures: Seq<Texture>,
        sources: Seq<usize>,
        from: int,
    ) -> bool {
        let refs = self.info.textures@;
        &&& next.info == self.info
        &&& next.vs == self.vs
        &&& next.ps == self.ps
        &&& next.textures@ == textures
        &&& next.sources@ == sources
        &&& next.ps_inputs@ == self.ps_inputs@
        &&& match next_entry(refs, from) {
            Some(entry) => {
                &&& next.stage matches LoadStage::LoadTexture { entry: e, load }
                &&& e == entry
                &&& load matches TextureLoad::LoadImage { path }
                &&& path@ == refs[entry].path@
                &&& next.vs_code == self.vs_code
                &&& next.ps_code == self.ps_code
                &&& commands == Seq::<Command>::empty()
            },
            None => match albedo_texture(refs, sources) {
                Some(texture) => {
                    &&& next.stage == LoadStage::BindAlbedo { texture: texture as usize }
                    &&& next.vs_code == self.vs_code
                    &&& next.ps_code == self.ps_code
                    &&& commands == Seq::<Command>::empty()
                },
                None => {
                    &&& next.stage is Done
                    &&& next.vs_code == 0
                    &&& next.ps_code == 0
                    &&& commands == releases(held(seq![self.ps_code, self.vs_code]))
                },
            },
        }
    }

    /// Whether `next` and `commands` are what follows when `event` answers
    /// the pending request.
    pub open spec fn step(&self, event: Event, next: MaterialLoader, commands: Seq<Command>) -> bool {
        match self.stage {
            LoadStage::CompileVertex => {
                let reply = event->Compiled_0;
                &&& commands == releases(reply.released())
                &&& if reply.status != native::S_OK {
                    &&& next.stage matches LoadStage::Failed(ResourceError::Compile(e))
                    &&& e.status == reply.status
                    &&& e.diagnostics@ == reply.diagnostic_text()
                    &&& next == self.failed(next.stage->Failed_0)
                } else if reply.code == 0 {
                    next == self.failed(ResourceError::EmptyInput)
                } else {
                    next == (MaterialLoader {
                        stage: LoadStage::CompilePixel,
                        vs_code: reply.code,
                        ..*self
                    })
                }
            },
            LoadStage::CompilePixel => {
                let reply = event->Compiled_0;
                if reply.status != native::S_OK {
                    &&& next.stage matches LoadStage::Failed(ResourceError::Compile(e))
                    &&& e.status == reply.status
                    &&& e.diagnostics@ == reply.diagnostic_text()
                    &&& next == self.failed(next.stage->Failed_0)
                    &&& commands == releases(reply.released()) + releases(
                        held(self.shader_objects()),
                    )
                } else if reply.code == 0 {
                    &&& next == self.failed(ResourceError::EmptyInput)
                    &&& commands == releases(reply.released()) + releases(
                        held(self.shader_objects()),
                    )
                } else {
                    &&& next == (MaterialLoader {
                        stage: LoadStage::CreateVertexShader,
                        ps_code: reply.code,
                        ..*self
                    })
                    &&& commands == releases(reply.released())
                }
            },
            LoadStage::CreateVertexShader => {
                let reply = event->Object_0;
                if !reply.succeeded() {
                    &&& next == self.failed(ResourceError::Rejected(reply.status))
                    &&& commands == releases(held(self.shader_objects()))
                } else {
                    &&& next == (MaterialLoader {
                        stage: LoadStage::CreatePixelShader,
                        vs: reply.object,
                        ..*self
                    })
                    &&& commands == Seq::<Command>::empty()
                }
            },
            LoadStage::CreatePixelShader => {
                let reply = event->Object_0;
                if !reply.succeeded() {
                    &&& next == self.failed(ResourceError::Rejected(reply.status))
                    &&& commands == releases(held(self.shader_objects()))
                } else if !translatable(self.info.vert_format) {
                    &&& next == self.failed(ResourceError::InvalidFormat)
                    &&& commands == releases(
                        held(seq![reply.object, self.vs, self.ps_code, self.vs_code]),
                    )
                } else {
                    &&& next == (MaterialLoader {
                        stage: LoadStage::CreateLayout,
                        ps: reply.object,
                        ..*self
                    })
                    &&& commands == Seq::<Command>::empty()
                }
            },
            LoadStage::CreateLayout => {
                let reply = event->Object_0;
                if !reply.succeeded() {
                    &&& next == self.failed(ResourceError::Rejected(reply.status))
                    &&& commands == releases(held(self.shader_objects()))
                } else {
                    &&& next.layout == reply.object
                    &&& self.settled(next, commands, self.textures@, self.sources@, 0)
                }
            },
            LoadStage::LoadTexture { entry, load } => {
                &&& next.layout == self.layout
                &&& exists|after: TextureLoad|
                    {
                        &&& #[trigger] load.step(event, after)
                        &&& match after {
                            TextureLoad::Done(Ok(texture)) => self.settled(
                                next,
                                commands,
                                self.textures@.push(texture),
                                self.sources@.push(entry),
                                entry + 1,
                            ),
                            TextureLoad::Done(Err(_)) => self.settled(
                                next,
                                commands,
                                self.textures@,
                                self.sources@,
                                entry + 1,
                            ),
                            _ => {
                                &&& next == (MaterialLoader {
                                    stage: LoadStage::LoadTexture { entry, load: after },
                                    ..*self
                                })
                                &&& commands == Seq::<Command>::empty()
                            },
                        }
                    }
            },
            LoadStage::BindAlbedo { texture } => {
                let reply = event->Object_0;
                &&& next.info == self.info
                &&& next.stage is Done
                &&& next.vs_code == 0
                &&& next.ps_code == 0
                &&& next.vs == self.vs
                &&& next.ps == self.ps
                &&& next.layout == self.layout
                &&& next.textures@ == self.textures@
                &&& next.sources@ == self.sources@
                &&& next.ps_inputs@ == if reply.succeeded() {
                    self.ps_inputs@.push((ALBEDO_SLOT, ShaderInput { srv: reply.object }))
                } else {
                    self.ps_inputs@
                }
                &&& commands == releases(held(seq![self.ps_code, self.vs_code]))
            },
            LoadStage::Done => false,
            LoadStage::Failed(_) => false,
        }
    }

    /// Whether `r` is the request that the load waits for: the compilation
    /// of the described file from `VSMain` for the vertex stage, then from
    /// `PSMain` for the pixel stage, without defines; the shaders from
    /// their code; the layout from the translated format and the vertex
    /// shader's code; for a texture, what its load asks; the view of the
    /// albedo texture; and nothing at the end.
    pub open spec fn asks(&self, r: Option<Request>) -> bool {
        match self.stage {
            LoadStage::CompileVertex => {
                &&& r matches Some(Request::Compile(c))
                &&& c.path@ == self.info.shader_file@
                &&& c.defines@.len() == 0
                &&& c.entry_point@ == "VSMain"@
                &&& c.profile == ShaderType::Vertex
                &&& c.flags == native::COMPILE_OPTIMIZATION_LEVEL3
            },
            LoadStage::CompilePixel => {
                &&& r matches Some(Request::Compile(c))
                &&& c.path@ == self.info.shader_file@
                &&& c.defines@.len() == 0
                &&& c.entry_point@ == "PSMain"@
                &&& c.profile == ShaderType::Pixel
                &&& c.flags == native::COMPILE_OPTIMIZATION_LEVEL3
            },
            LoadStage::CreateVertexShader => r == Some(
                Request::CreateVertexShader { code: self.vs_code },
            ),
            LoadStage::CreatePixelShader => r == Some(
                Request::CreatePixelShader { code: self.ps_code },
            ),
            LoadStage::CreateLayout => {
                &&& r matches Some(Request::CreateInputLayout { elements, code })
                &&& code == self.vs_code
                &&& elements@.len() == self.info.vert_format.num_inputs
                &&& forall|i: int|
                    0 <= i < elements@.len() ==> Some(#[trigger] elements@[i])
                        == crate::input_layout::element_desc(self.info.vert_format.inputs[i])
            },
            LoadStage::LoadTexture { load, .. } => load.asks(r),
            LoadStage::BindAlbedo { texture } => r == Some(
                Request::CreateShaderResourceView { resource: self.textures@[texture as int].res },
            ),
            LoadStage::Done => r is None,
            LoadStage::Failed(_) => r is None,
        }
    }

    /// The request to perform next; none once the load has ended. A file
    /// is only asked for on behalf of the first entry that names it.
    pub fn request(&self) -> (r: Option<Request>)
        requires
            self.wf(),
        ensures
            self.asks(r),
            self.finished() <==> r is None,
            r matches Some(request) ==> forall|event: Event|
                request.answered_by(event) == self.expects(event),
            r matches Some(Request::LoadImage { path }) ==> {
                &&& self.stage matches LoadStage::LoadTexture { entry, .. }
                &&& path@ == self.info.textures@[entry as int].path@
                &&& !occurs_before(self.info.textures@, path@, entry as int)
            },
    {
        match &self.stage {
            LoadStage::CompileVertex => {
                let compiler = ShaderCompiler::from_file(self.info.shader_file.as_str());
                let request = compiler.request("VSMain", ShaderType::Vertex);
                assert(request.defines@.len() == crate::shader_compiler::texts(
                    request.defines@,
                ).len());
                Some(Request::Compile(request))
            },
            LoadStage::CompilePixel => {
                let compiler = ShaderCompiler::from_file(self.info.shader_file.as_str());
                let request = compiler.request("PSMain", ShaderType::Pixel);
                assert(request.defines@.len() == crate::shader_compiler::texts(
                    request.defines@,
                ).len());
                Some(Request::Compile(request))
            },
            LoadStage::CreateVertexShader => Some(
                Request::CreateVertexShader { code: self.vs_code },
            ),
            LoadStage::CreatePixelShader => Some(Request::CreatePixelShader { code: self.ps_code }),
            LoadStage::CreateLayout => match InputLayout::elements(&self.info.vert_format) {
                Ok(elements) => Some(
                    Request::CreateInputLayout { elements, code: self.vs_code },
                ),
                Err(_) => None,
            },
            LoadStage::LoadTexture { entry, load } => {
                load.request()
            },
            LoadStage::BindAlbedo { texture } => Some(
                Request::CreateShaderResourceView { resource: self.textures[*texture].res },
            ),
            LoadStage::Done => None,
            LoadStage::Failed(_) => None,
        }
    }

    /// Goes on once the shaders and the layout stand and the entries
    /// before `from` are dealt with: to the next texture, to the albedo
    /// binding, or to the end.
    fn settle(self, from: usize) -> (out: (MaterialLoader, Vec<Command>))
        requires
            self.lists_wf(),
            self.sources_before(from as int),
            from <= self.info.textures@.len(),
        ensures
            out.0.wf(),
            out.0.layout == self.layout,
            self.settled(out.0, out.1@, self.textures@, self.sources@, from as int),
    {
        let MaterialLoader {
            info,
            stage: _,
            vs_code,
            ps_code,
            vs,
            ps,
            layout,
            textures,
            sources,
            ps_inputs,
        } = self;
        let mut commands: Vec<Command> = Vec::new();
        match seek_entry(&info.textures, from) {
            Some(entry) => {
                let load = TextureLoad::start(info.textures[entry].path.as_str());
                let next = MaterialLoader {
                    info,
                    stage: LoadStage::LoadTexture { entry, load },
                    vs_code,
                    ps_code,
                    vs,
                    ps,
                    layout,
                    textures,
                    sources,
                    ps_inputs,
                };
                (next, commands)
            },
            None => {
                match find_albedo(&info.textures, &sources) {
                    Some(texture) => {
                        let next = MaterialLoader {
                            info,
                            stage: LoadStage::BindAlbedo { texture },
                            vs_code,
                            ps_code,
                            vs,
                            ps,
                            layout,
                            textures,
                            sources,
                            ps_inputs,
                        };
                        (next, commands)
                    },
                    None => {
                        release_held(&mut commands, ps_code, vs_code);
                        let next = MaterialLoader {
                            info,
                            stage: LoadStage::Done,
                            vs_code: 0,
                            ps_code: 0,
                            vs,
                            ps,
                            layout,
                            textures,
                            sources,
                            ps_inputs,
                        };
                        (next, commands)
                    },
                }
            },
        }
    }

    /// Ends the load with `error`: everything held is released, the latest
    /// first. `ps` is the pixel shader to release, which the load may not
    /// hold yet.
    fn fail(self, error: ResourceError, ps: u64, commands: &mut Vec<Command>) -> (next:
        MaterialLoader)
        requires
            self.lists_wf(),
            self.bare(),
        ensures
            next == self.failed(error),
            next.wf(),
            final(commands)@ == old(commands)@ + releases(
                held(seq![ps, self.vs, self.ps_code, self.vs_code]),
            ),
    {
        let MaterialLoader {
            info,
            stage: _,
            vs_code,
            ps_code,
            vs,
            ps: _,
            layout,
            textures,
            sources,
            ps_inputs,
        } = self;
        let ghost all = seq![ps, vs, ps_code, vs_code];
        let ghost before = commands@;
        assert(all.take(0) =~= Seq::<u64>::empty());
        assert(releases(held(all.take(0))) =~= Seq::<Command>::empty());
        release_one(commands, ps, Ghost(before), Ghost(all), Ghost(0));
        release_one(commands, vs, Ghost(before), Ghost(all), Ghost(1));
        release_one(commands, ps_code, Ghost(before), Ghost(all), Ghost(2));
        release_one(commands, vs_code, Ghost(before), Ghost(all), Ghost(3));
        assert(all.take(4) =~= all);
        MaterialLoader {
            info,
            stage: LoadStage::Failed(error),
            vs_code: 0,
            ps_code: 0,
            vs: 0,
            ps: 0,
            layout,
            textures,
            sources,
            ps_inputs,
        }
    }

    /// Takes the answer to the pending request. Beside the next state
    /// stand the commands to perform.
    pub fn advance(self, event: Event) -> (out: (MaterialLoader, Vec<Command>))
        requires
            self.wf(),
            self.expects(event),
        ensures
            out.0.wf(),
            self.step(event, out.0, out.1@),
    {
        let mut commands: Vec<Command> = Vec::new();
        let ghost start = self;
        let ghost ev = event;
        match &self.stage {
            LoadStage::CompileVertex | LoadStage::CompilePixel => {
                let first = match &self.stage {
                    LoadStage::CompileVertex => true,
                    _ => false,
                };
                let reply = match event {
                    Event::Compiled(reply) => reply,
                    _ => {
                        return (self, commands);
                    },
                };
                let compiler = ShaderCompiler::from_file(self.info.shader_file.as_str());
                let ghost released = reply.released();
                let code: u64 = reply.code;
                let (result, objects) = compiler.compile(reply);
                release_all(&mut commands, &objects);
                match result {
                    Err(e) => {
                        let ps: u64 = self.ps;
                        let next = self.fail(ResourceError::Compile(e), ps, &mut commands);
                        proof {
                            lemma_nothing_held(start);
                        }
                        (next, commands)
                    },
                    Ok(_) => {
                        if code == 0 {
                            let ps: u64 = self.ps;
                            let next = self.fail(ResourceError::EmptyInput, ps, &mut commands);
                            proof {
                                lemma_nothing_held(start);
                            }
                            (next, commands)
                        } else if first {
                            let mut next = self;
                            next.stage = LoadStage::CompilePixel;
                            next.vs_code = code;
                            (next, commands)
                        } else {
                            let mut next = self;
                            next.stage = LoadStage::CreateVertexShader;
                            next.ps_code = code;
                            (next, commands)
                        }
                    },
                }
            },
            LoadStage::CreateVertexShader => {
                let reply = match event {
                    Event::Object(reply) => reply,
                    _ => {
                        return (self, commands);
                    },
                };
                if !reply.is_ok() {
                    let ps: u64 = self.ps;
                    let next = self.fail(ResourceError::Rejected(reply.status), ps, &mut commands);
                    assert(commands@ =~= releases(held(start.shader_objects())));
                    (next, commands)
                } else {
                    let mut next = self;
                    next.stage = LoadStage::CreatePixelShader;
                    next.vs = reply.object;
                    (next, commands)
                }
            },
            LoadStage::CreatePixelShader => {
                let reply = match event {
                    Event::Object(reply) => reply,
                    _ => {
                        return (self, commands);
                    },
                };
                if !reply.is_ok() {
                    let ps: u64 = self.ps;
                    let next = self.fail(ResourceError::Rejected(reply.status), ps, &mut commands);
                    assert(commands@ =~= releases(held(start.shader_objects())));
                    (next, commands)
                } else if InputLayout::elements(&self.info.vert_format).is_err() {
                    let next = self.fail(ResourceError::InvalidFormat, reply.object, &mut commands);
                    assert(commands@ =~= releases(
                        held(seq![reply.object, start.vs, start.ps_code, start.vs_code]),
                    ));
                    (next, commands)
                } else {
                    let mut next = self;
                    next.stage = LoadStage::CreateLayout;
                    next.ps = reply.object;
                    (next, commands)
                }
            },
            LoadStage::CreateLayout => {
                let reply = match event {
                    Event::Object(reply) => reply,
                    _ => {
                        return (self, commands);
                    },
                };
                if !reply.is_ok() {
                    let ps: u64 = self.ps;
                    let next = self.fail(ResourceError::Rejected(reply.status), ps, &mut commands);
                    assert(commands@ =~= releases(held(start.shader_objects())));
                    (next, commands)
                } else {
                    let mut next = self;
                    next.layout = reply.object;
                    next.settle(0)
                }
            },
            LoadStage::LoadTexture { .. } => {
                let MaterialLoader {
                    info,
                    stage,
                    vs_code,
                    ps_code,
                    vs,
                    ps,
                    layout,
                    textures,
                    sources,
                    ps_inputs,
                } = self;
                let (entry, load) = match stage {
                    LoadStage::LoadTexture { entry, load } => (entry, load),
                    _ => {
                        return (
                            MaterialLoader {
                                info,
                                stage,
                                vs_code,
                                ps_code,
                                vs,
                                ps,
                                layout,
                                textures,
                                sources,
                                ps_inputs,
                            },
                            commands,
                        );
                    },
                };
                let entries: usize = info.textures.len();
                assert(entry < entries);
                let after = load.advance(event);
                match after {
                    TextureLoad::Done(Ok(texture)) => {
                        let mut textures = textures;
                        let mut sources = sources;
                        proof {
                            lemma_not_before(
                                info.textures@,
                                info.textures@[entry as int].path@,
                                entry as int,
                            );
                        }
                        textures.push(texture);
                        sources.push(entry);
                        let mid = MaterialLoader {
                            info,
                            stage: LoadStage::Done,
                            vs_code,
                            ps_code,
                            vs,
                            ps,
                            layout,
                            textures,
                            sources,
                            ps_inputs,
                        };
                        let out = mid.settle(entry + 1);
                        assert(load.step(event, after));
                        out
                    },
                    TextureLoad::Done(Err(e)) => {
                        let mid = MaterialLoader {
                            info,
                            stage: LoadStage::Done,
                            vs_code,
                            ps_code,
                            vs,
                            ps,
                            layout,
                            textures,
                            sources,
                            ps_inputs,
                        };
                        let out = mid.settle(entry + 1);
                        assert(load.step(event, TextureLoad::Done(Err(e))));
                        out
                    },
                    _ => {
                        assert(load.step(event, after));
                        (
                            MaterialLoader {
                                info,
                                stage: LoadStage::LoadTexture { entry, load: after },
                                vs_code,
                                ps_code,
                                vs,
                                ps,
                                layout,
                                textures,
                                sources,
                                ps_inputs,
                            },
                            commands,
                        )
                    },
                }
            },
            LoadStage::BindAlbedo { .. } => {
                let reply = match event {
                    Event::Object(reply) => reply,
                    _ => {
                        return (self, commands);
                    },
                };
                let mut next = self;
                if reply.is_ok() {
                    next.ps_inputs.push((ALBEDO_SLOT, ShaderInput { srv: reply.object }));
                }
                release_held(&mut commands, next.ps_code, next.vs_code);
                next.stage = LoadStage::Done;
                next.vs_code = 0;
                next.ps_code = 0;
                (next, commands)
            },
            LoadStage::Done => (self, commands),
            LoadStage::Failed(_) => (self, commands),
        }
    }
}

/// A file that none of the first `upto` entries names is the file of none
/// of them.
pub proof fn lemma_not_before(refs: Seq<TextureRef>, path: Seq<char>, upto: int)
    requires
        !occurs_before(refs, path, upto),
    ensures
        forall|k: int| 0 <= k < upto ==> (#[trigger] refs[k]).path@ != path,
    decreases upto,
{
    if upto > 0 {
        lemma_not_before(refs, path, upto - 1);
    }
}

/// The next file to load belongs to an entry at or behind the place the
/// search starts from, and no entry before that entry names it.
pub proof fn lemma_next_entry(refs: Seq<TextureRef>, from: int)
    requires
        next_entry(refs, from) is Some,
    ensures
        from <= next_entry(refs, from)->0 < refs.len(),
        !occurs_before(
            refs,
            refs[next_entry(refs, from)->0].path@,
            next_entry(refs, from)->0,
        ),
    decreases refs.len() - from,
{
    if 0 <= from < refs.len() && occurs_before(refs, refs[from].path@, from) {
        lemma_next_entry(refs, from + 1);
    }
}

/// No file is asked for twice. When a load that has dealt with the file of
/// one entry, with whatever outcome, goes on to ask for the file of
/// another, that entry comes later and its file is the file of none of the
/// entries up to the first one: of no file asked for before.
pub proof fn lemma_no_file_asked_twice(
    loader: MaterialLoader,
    event: Event,
    next: MaterialLoader,
    commands: Seq<Command>,
)
    requires
        loader.wf(),
        loader.expects(event),
        loader.step(event, next, commands),
        loader.stage is LoadTexture,
        next.stage matches LoadStage::LoadTexture { load, .. } && load is LoadImage,
    ensures
        loader.stage->LoadTexture_entry < next.stage->LoadTexture_entry,
        forall|k: int|
            0 <= k <= loader.stage->LoadTexture_entry ==> (#[trigger] loader.info.textures@[k]).path@
                != loader.info.textures@[next.stage->LoadTexture_entry as int].path@,
{
    let refs = loader.info.textures@;
    let entry = loader.stage->LoadTexture_entry;
    let load = loader.stage->LoadTexture_load;
    let later = next.stage->LoadTexture_entry;
    let after = choose|after: TextureLoad|
        {
            &&& #[trigger] load.step(event, after)
            &&& match after {
                TextureLoad::Done(Ok(texture)) => loader.settled(
                    next,
                    commands,
                    loader.textures@.push(texture),
                    loader.sources@.push(entry),
                    entry + 1,
                ),
                TextureLoad::Done(Err(_)) => loader.settled(
                    next,
                    commands,
                    loader.textures@,
                    loader.sources@,
                    entry + 1,
                ),
                _ => {
                    &&& next == (MaterialLoader {
                        stage: LoadStage::LoadTexture { entry, load: after },
                        ..loader
                    })
                    &&& commands == Seq::<Command>::empty()
                },
            }
        };
    assert(after is Done);
    assert(next_entry(refs, entry + 1) is Some);
    lemma_next_entry(refs, entry + 1);
    lemma_not_before(refs, refs[later as int].path@, later as int);
}

/// A load that holds nothing releases nothing.
proof fn lemma_nothing_held(loader: MaterialLoader)
    ensures
        loader.shader_objects() == seq![0u64, 0u64, 0u64, 0u64] ==> releases(
            held(loader.shader_objects()),
        ) == Seq::<Command>::empty(),
{
    reveal_with_fuel(held, 5);
    assert(releases(Seq::<u64>::empty()) =~= Seq::<Command>::empty());
}

/// Appends a release command for each object.
fn release_all(commands: &mut Vec<Command>, objects: &Vec<u64>)
    ensures
        final(commands)@ == old(commands)@ + releases(objects@),
{
    let mut i: usize = 0;
    assert(commands@ =~= old(commands)@ + releases(objects@).take(0));
    while i < objects.len()
        invariant
            i <= objects@.len(),
            commands@ == old(commands)@ + releases(objects@).take(i as int),
        decreases objects@.len() - i,
    {
        commands.push(Command::Release { object: objects[i] });
        assert(commands@ =~= old(commands)@ + releases(objects@).take(i + 1));
        i += 1;
    }
    assert(releases(objects@).take(i as int) =~= releases(objects@));
}

/// Appends the release of `object`, the element of `all` at `index`,
/// unless it is null.
fn release_one(
    commands: &mut Vec<Command>,
    object: u64,
    Ghost(before): Ghost<Seq<Command>>,
    Ghost(all): Ghost<Seq<u64>>,
    Ghost(index): Ghost<int>,
)
    requires
        0 <= index < all.len(),
        all[index] == object,
        old(commands)@ == before + releases(held(all.take(index))),
    ensures
        final(commands)@ == before + releases(held(all.take(index + 1))),
{
    assert(all.take(index + 1).drop_last() =~= all.take(index));
    if object != 0 {
        commands.push(Command::Release { object });
        assert(commands@ =~= before + releases(held(all.take(index + 1))));
    }
}

/// Appends the releases of two objects, each unless it is null.
fn release_held(commands: &mut Vec<Command>, first: u64, second: u64)
    ensures
        final(commands)@ == old(commands)@ + releases(held(seq![first, second])),
{
    let ghost all = seq![first, second];
    let ghost before = commands@;
    assert(all.take(0) =~= Seq::<u64>::empty());
    assert(commands@ =~= before + releases(held(all.take(0))));
    release_one(commands, first, Ghost(before), Ghost(all), Ghost(0));
    release_one(commands, second, Ghost(before), Ghost(all), Ghost(1));
    assert(all.take(2) =~= all);
}

/// Finds the loaded texture that came from the file at `path`.
fn find_loaded(refs: &Vec<TextureRef>, sources: &Vec<usize>, path: &String) -> (r: Option<usize>)
    requires
        forall|k: int| 0 <= k < sources@.len() ==> #[trigger] sources@[k] < refs@.len(),
    ensures
        r matches Some(k) ==> k < sources@.len() && loaded_from(refs@, sources@, path@, 0) == Some(
            k as int,
        ),
        r is None ==> loaded_from(refs@, sources@, path@, 0) is None,
{
    let mut k: usize = 0;
    while k < sources.len()
        invariant
            k <= sources@.len(),
            forall|k: int| 0 <= k < sources@.len() ==> #[trigger] sources@[k] < refs@.len(),
            loaded_from(refs@, sources@, path@, 0) == loaded_from(refs@, sources@, path@, k as int),
        decreases sources@.len() - k,
    {
        if refs[sources[k]].path == *path {
            return Some(k);
        }
        k += 1;
    }
    None
}

/// Whether an entry before `entry` names the file that `entry` names.
fn named_earlier(refs: &Vec<TextureRef>, entry: usize) -> (found: bool)
    requires
        entry < refs@.len(),
    ensures
        found == occurs_before(refs@, refs@[entry as int].path@, entry as int),
{
    let mut k: usize = entry;
    while k > 0
        invariant
            k <= entry < refs@.len(),
            occurs_before(refs@, refs@[entry as int].path@, entry as int) == occurs_before(
                refs@,
                refs@[entry as int].path@,
                k as int,
            ),
        decreases k,
    {
        if refs[k - 1].path == refs[entry].path {
            return true;
        }
        k -= 1;
    }
    false
}

/// Finds the first entry from `from` on whose file no earlier entry names.
fn seek_entry(refs: &Vec<TextureRef>, from: usize) -> (r: Option<usize>)
    ensures
        r matches Some(entry) ==> from <= entry < refs@.len() && next_entry(refs@, from as int)
            == Some(entry as int) && !occurs_before(
            refs@,
            refs@[entry as int].path@,
            entry as int,
        ),
        r is None ==> next_entry(refs@, from as int) is None,
{
    let mut entry: usize = from;
    while entry < refs.len()
        invariant
            from <= entry,
            next_entry(refs@, from as int) == next_entry(refs@, entry as int),
        decreases refs@.len() - entry,
    {
        if !named_earlier(refs, entry) {
            return Some(entry);
        }
        entry += 1;
    }
    None
}

/// Finds the loaded texture that the albedo map names.
fn find_albedo(refs: &Vec<TextureRef>, sources: &Vec<usize>) -> (r: Option<usize>)
    requires
        forall|k: int| 0 <= k < sources@.len() ==> #[trigger] sources@[k] < refs@.len(),
    ensures
        r matches Some(k) ==> k < sources@.len() && albedo_texture(refs@, sources@) == Some(k as int),
        r is None ==> albedo_texture(refs@, sources@) is None,
{
    let name = "albedo_map".to_owned();
    let mut entry: usize = 0;
    while entry < refs.len()
        invariant
            name@ == "albedo_map"@,
            forall|k: int| 0 <= k < sources@.len() ==> #[trigger] sources@[k] < refs@.len(),
            named_entry(refs@, "albedo_map"@, 0) == named_entry(refs@, "albedo_map"@, entry as int),
        decreases refs@.len() - entry,
    {
        if refs[entry].name == name {
            return find_loaded(refs, sources, &refs[entry].path);
        }
        entry += 1;
    }
    None
}

} // verus!
