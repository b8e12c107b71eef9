use gfx::color::Color4T;
use gfx::device::Event;
use gfx::device::Request;
use gfx::graphics::Command;
use gfx::graphics::Graphics;
use gfx::graphics::PrimitiveTopology;
use gfx::index_buffer::IndexBuffer;
use gfx::input_layout::InputLayout;
use gfx::material::Material;
use gfx::model::all_fit;
use gfx::model::DrawData;
use gfx::model::MeshVertex;
use gfx::model::Model;
use gfx::model::ModelSetup;
use gfx::model::ModelStage;
use gfx::model::UNRESOLVED_MATERIAL;
use gfx::model_builder::ImportedMaterial;
use gfx::model_builder::ImportedMesh;
use gfx::model_builder::ModelBuild;
use gfx::model_builder::ModelBuilder;
use gfx::model_builder::OBJECT_DIR;
use gfx::model_builder::OBJECT_SHADER;
use gfx::native::BufferDesc;
use gfx::native::BufferRequest;
use gfx::native::InitData;
use gfx::native::NativeReply;
use gfx::native::ResourceError;
use gfx::numerics::Point3F;
use gfx::numerics::Vector2F;
use gfx::numerics::Vector3F;
use gfx::shader::Shader;
use gfx::shader_compiler::CompileReply;
use gfx::shader_input::ShaderInput;
use gfx::texture::Image;
use gfx::texture::LoadResult;
use gfx::texture::Texture;
use gfx::texture::TextureFormat;
use gfx::vertex_buffer::VertexBuffer;
use gfx::vertex_format::FormatType;
use gfx::vertex_format::SemanticType;

fn model_bits(values: &[f32]) -> Vec<u32> {
    values.iter().map(|v| v.to_bits()).collect()
}

fn model_triangle(material_id: Option<usize>) -> ImportedMesh {
    ImportedMesh {
        positions: model_bits(&[0.0, 0.0, 0.0, 1.0, 0.0, 0.0, 0.0, 1.0, 0.0]),
        normals: Vec::new(),
        texcoords: Vec::new(),
        indices: vec![0, 1, 2],
        material_id,
    }
}

fn model_material(vs: u64) -> Material {
    Material::create(
        Shader::Vertex(vs),
        Shader::Pixel(vs + 1),
        PrimitiveTopology::TriangleList,
        InputLayout { data: vs + 2 },
        vec![Texture { format: TextureFormat::R8UNorm, width: 1, height: 1, depth: 1, res: vs + 3 }],
        vec![(0, ShaderInput { srv: vs + 4 })],
    )
}

/// Performs every request of a build by making the object asked for,
/// numbering them from 0x100; the request numbered `fail_at` is refused.
fn model_run(build: ModelBuild, first: Vec<Command>, fail_at: Option<usize>) -> (ModelBuild, Vec<Request>, Vec<Command>) {
    let mut build = build;
    let mut requests = Vec::new();
    let mut commands = first;
    let mut next = 0x100u64;
    while let Some(request) = build.request() {
        let fail = fail_at == Some(requests.len());
        next += 1;
        let event = match &request {
            Request::Compile(_) => Event::Compiled(CompileReply {
                status: if fail { -1 } else { 0 },
                code: if fail { 0 } else { next },
                errors: 0,
                diagnostics: None,
            }),
            Request::LoadImage { .. } => {
                if fail {
                    Event::Image(LoadResult::Error("cannot open".to_string()))
                } else {
                    Event::Image(LoadResult::ImageU8(Image { width: 1, height: 1, depth: 4, data: vec![1, 2, 3, 4] }))
                }
            }
            _ => Event::Object(NativeReply { status: if fail { -7 } else { 0 }, object: if fail { 0 } else { next } }),
        };
        assert!(request.is_answered_by(&event));
        requests.push(request);
        let (after, more) = build.advance(event);
        commands.extend(more);
        build = after;
    }
    (build, requests, commands)
}

#[test]
fn mesh_vertex_format() {
    let f = MeshVertex::get_format();
    assert_eq!(f.num_inputs, 5);
    assert_eq!(f.stride, 48);
    let offsets: Vec<u32> = f.inputs[..5].iter().map(|e| e.byte_offset).collect();
    assert_eq!(offsets, vec![0, 12, 24, 36, 44]);
    assert_eq!(f.inputs[2].semantic, SemanticType::Tangent);
    assert_eq!(f.inputs[3].format, FormatType::R32G32Float);
    assert_eq!(f.inputs[4].semantic_index, 1);
}

#[test]
fn default_mesh_vertex() {
    let v = MeshVertex::default();
    assert_eq!(v.pos, Point3F { x: 0, y: 0, z: 0 });
    assert_eq!(v.norm, Vector3F { x: 0, y: 0, z: 0 });
    assert_eq!(v.tangent, Vector3F { x: 0, y: 0, z: 0 });
    assert_eq!(v.uv, Vector2F { x: 0, y: 0 });
    assert_eq!(v.color, Color4T { r: 255, g: 255, b: 255, a: 255 });
    assert_eq!(DrawData::default(), DrawData { start_index: 0, num_tris: 0, material_idx: 0 });
}

#[test]
fn draws_are_checked_against_indices_and_materials() {
    let draw = DrawData { start_index: 3, num_tris: 2, material_idx: 1 };
    assert!(draw.is_fit(9, 2));
    assert!(!draw.is_fit(8, 2));
    assert!(!draw.is_fit(9, 1));
    let unresolved = DrawData { start_index: 0, num_tris: 1, material_idx: UNRESOLVED_MATERIAL };
    assert!(unresolved.is_fit(3, 0));
    assert!(!unresolved.is_fit(2, 0));
    let huge = DrawData { start_index: u32::MAX, num_tris: u32::MAX, material_idx: 0 };
    assert!(!huge.is_fit(u32::MAX as usize, 1));
    assert!(huge.is_fit(4 * (u32::MAX as usize), 1));
    assert!(all_fit(&vec![draw, unresolved], 9, 2));
    assert!(!all_fit(&vec![draw, unresolved], 9, 1));
    assert!(all_fit(&vec![], 0, 0));
}

#[test]
fn gathering_rewinds_every_triangle() {
    let mesh = ImportedMesh {
        positions: model_bits(&[0.0; 12]),
        normals: Vec::new(),
        texcoords: Vec::new(),
        indices: vec![0, 1, 2, 2, 1, 3, 9, 9],
        material_id: None,
    };
    let builder = ModelBuilder::load_from_obj(&vec![mesh], &vec![]).unwrap();
    assert_eq!(builder.indices, vec![0, 2, 1, 2, 3, 1]);
    assert_eq!(builder.verts.len(), 4);
    assert_eq!(
        builder.draws,
        vec![DrawData { start_index: 0, num_tris: 2, material_idx: UNRESOLVED_MATERIAL }]
    );
    assert!(builder.materials.is_empty());
}

#[test]
fn gathering_fills_in_what_a_mesh_lacks() {
    let mesh = ImportedMesh {
        positions: model_bits(&[1.0, 2.0, 3.0, 4.0, 5.0, 6.0, 7.0]),
        normals: model_bits(&[0.0, 1.0, 0.0, 0.0, 0.0, 1.0]),
        texcoords: Vec::new(),
        indices: vec![0, 1, 0],
        material_id: Some(0),
    };
    let builder = ModelBuilder::load_from_obj(&vec![mesh], &vec![]).unwrap();
    assert_eq!(builder.verts.len(), 2);
    let v = builder.verts[1];
    assert_eq!(v.pos, Point3F { x: 4.0f32.to_bits(), y: 5.0f32.to_bits(), z: 6.0f32.to_bits() });
    assert_eq!(v.norm, Vector3F { x: 0, y: 0, z: 1.0f32.to_bits() });
    assert_eq!(v.tangent, Vector3F { x: 0, y: 0, z: 0 });
    assert_eq!(v.uv, Vector2F { x: 0, y: 0 });
    assert_eq!(v.color, Color4T { r: 255, g: 255, b: 255, a: 255 });
    assert_eq!(builder.draws[0].material_idx, 0);
}

#[test]
fn gathering_takes_texture_coordinates() {
    let mesh = ImportedMesh {
        positions: model_bits(&[0.0; 6]),
        normals: Vec::new(),
        texcoords: model_bits(&[0.25, 0.5, 0.75, 1.0]),
        indices: Vec::new(),
        material_id: None,
    };
    let builder = ModelBuilder::load_from_obj(&vec![mesh], &vec![]).unwrap();
    assert_eq!(builder.verts[0].uv, Vector2F { x: 0.25f32.to_bits(), y: 0.5f32.to_bits() });
    assert_eq!(builder.verts[1].uv, Vector2F { x: 0.75f32.to_bits(), y: 1.0f32.to_bits() });
    assert_eq!(builder.verts[1].norm, Vector3F { x: 0, y: 0, z: 0 });
    assert_eq!(builder.draws, vec![DrawData { start_index: 0, num_tris: 0, material_idx: UNRESOLVED_MATERIAL }]);
}

#[test]
fn gathering_appends_meshes_and_describes_materials() {
    let second = ImportedMesh {
        positions: model_bits(&[0.0; 9]),
        normals: Vec::new(),
        texcoords: Vec::new(),
        indices: vec![2, 1, 0, 0, 1, 2],
        material_id: Some(1),
    };
    let materials = vec![
        ImportedMaterial { diffuse_texture: "data\\objects\\wood.png".to_string() },
        ImportedMaterial { diffuse_texture: "data\\objects\\stone.png".to_string() },
    ];
    let builder = ModelBuilder::load_from_obj(&vec![model_triangle(Some(0)), second], &materials).unwrap();
    assert_eq!(builder.verts.len(), 6);
    assert_eq!(builder.indices, vec![0, 2, 1, 2, 0, 1, 0, 2, 1]);
    assert_eq!(
        builder.draws,
        vec![
            DrawData { start_index: 0, num_tris: 1, material_idx: 0 },
            DrawData { start_index: 3, num_tris: 2, material_idx: 1 },
        ]
    );
    for draw in &builder.draws {
        assert!(draw.is_fit(builder.indices.len(), builder.materials.len()));
    }
    assert_eq!(builder.materials.len(), 2);
    let info = &builder.materials[1];
    assert_eq!(info.shader_file, OBJECT_SHADER);
    assert_eq!(info.shader_file, "data\\shaders\\object.hlsl");
    assert_eq!(OBJECT_DIR, "data\\objects");
    assert_eq!(info.topology, PrimitiveTopology::TriangleList);
    assert_eq!(info.vert_format.stride, 48);
    assert_eq!(info.textures.len(), 1);
    assert_eq!(info.textures[0].name, "albedo_map");
    assert_eq!(info.textures[0].path, "data\\objects\\stone.png");
}

#[test]
fn gathering_refuses_malformed_meshes() {
    let short_normals = ImportedMesh {
        positions: model_bits(&[0.0; 6]),
        normals: model_bits(&[0.0; 5]),
        texcoords: Vec::new(),
        indices: Vec::new(),
        material_id: None,
    };
    assert_eq!(ModelBuilder::load_from_obj(&vec![short_normals], &vec![]), Err(ResourceError::SizeMismatch));
    let short_uvs = ImportedMesh {
        positions: model_bits(&[0.0; 6]),
        normals: Vec::new(),
        texcoords: model_bits(&[0.0; 3]),
        indices: Vec::new(),
        material_id: None,
    };
    assert_eq!(
        ModelBuilder::load_from_obj(&vec![model_triangle(None), short_uvs], &vec![]),
        Err(ResourceError::SizeMismatch)
    );
}

#[test]
fn an_empty_scene_gathers_to_nothing() {
    let builder = ModelBuilder::load_from_obj(&vec![], &vec![]).unwrap();
    assert!(builder.verts.is_empty());
    assert!(builder.indices.is_empty());
    assert!(builder.draws.is_empty());
}

#[test]
fn one_triangle_end_to_end() {
    let materials = vec![ImportedMaterial { diffuse_texture: "data\\objects\\wood.png".to_string() }];
    let builder = ModelBuilder::load_from_obj(&vec![model_triangle(Some(0))], &materials).unwrap();
    assert_eq!(builder.indices, vec![0, 2, 1]);
    let (build, first) = builder.build();
    let (build, requests, commands) = model_run(build, first, None);
    // Five requests for shaders and layout, two for the texture, one for
    // its view, then the two buffers.
    assert_eq!(requests.len(), 10);
    assert_eq!(
        requests[8],
        Request::CreateBuffer {
            request: BufferRequest {
                desc: BufferDesc {
                    byte_width: 144,
                    usage: 1,
                    bind_flags: 1,
                    cpu_access_flags: 0,
                    misc_flags: 0,
                    structure_byte_stride: 48,
                },
                init: Some(InitData { pitch: 144, slice_pitch: 0 }),
            }
        }
    );
    assert_eq!(requests[9], Request::CreateBuffer { request: IndexBuffer::request(&[0, 2, 1]).unwrap() });
    // Only the compiled code is released on the way.
    assert_eq!(commands, vec![Command::Release { object: 0x102 }, Command::Release { object: 0x101 }]);
    let model = build.finish().unwrap();
    assert_eq!(model.ib, IndexBuffer { buff: 0x10A, num_indices: 3 });
    assert_eq!(model.vb.buff, 0x109);
    for draw in &model.draws {
        assert!(draw.start_index + draw.num_tris * 3 <= model.ib.num_indices);
        assert!((draw.material_idx as usize) < model.mats.len());
    }
    let mut gfx = Graphics { device: 0xD, context: 0xC, commands: Vec::new() };
    model.draw(&mut gfx);
    let draws: Vec<&Command> = gfx.commands.iter().filter(|c| matches!(c, Command::DrawIndexed { .. })).collect();
    assert_eq!(draws, vec![&Command::DrawIndexed { index_count: 3, start_index: 0, base_vertex: 0 }]);
    assert_eq!(
        gfx.commands,
        vec![
            Command::SetVertexBuffer { slot: 0, buffer: 0x109, stride: 48, offset: 0 },
            Command::SetIndexBuffer { buffer: 0x10A, format: 42, offset: 0 },
            Command::SetInputLayout { layout: 0x105 },
            Command::SetPrimitiveTopology { topology: 4 },
            Command::SetVertexShader { shader: 0x103 },
            Command::SetPixelShader { shader: 0x104 },
            Command::SetPsShaderInput { slot: 0, view: 0x108 },
            Command::DrawIndexed { index_count: 3, start_index: 0, base_vertex: 0 },
        ]
    );
}

#[test]
fn a_scene_without_materials_goes_straight_to_the_buffers() {
    let builder = ModelBuilder::load_from_obj(&vec![model_triangle(None)], &vec![]).unwrap();
    let (build, first) = builder.build();
    assert!(first.is_empty());
    let (build, requests, commands) = model_run(build, first, None);
    assert_eq!(requests.len(), 2);
    assert!(commands.is_empty());
    let model = build.finish().unwrap();
    assert_eq!(model.draws, vec![DrawData { start_index: 0, num_tris: 1, material_idx: UNRESOLVED_MATERIAL }]);
    assert!(model.mats.is_empty());
}

#[test]
fn a_material_that_cannot_be_loaded_fails_the_build() {
    let materials = vec![
        ImportedMaterial { diffuse_texture: "a.png".to_string() },
        ImportedMaterial { diffuse_texture: "b.png".to_string() },
    ];
    let builder = ModelBuilder::load_from_obj(&vec![model_triangle(Some(0))], &materials).unwrap();
    let (build, first) = builder.build();
    // The first material takes eight requests; the tenth request compiles
    // the pixel shader of the second.
    let (build, requests, commands) = model_run(build, first, Some(9));
    assert_eq!(requests.len(), 10);
    assert!(matches!(build.finish(), Err(ResourceError::Compile(_))));
    assert_eq!(
        commands,
        vec![
            // the code of the first material
            Command::Release { object: 0x102 },
            Command::Release { object: 0x101 },
            // the vertex shader code of the second
            Command::Release { object: 0x109 },
            // the first material
            Command::Release { object: 0x103 },
            Command::Release { object: 0x104 },
            Command::Release { object: 0x105 },
            Command::Release { object: 0x107 },
            Command::Release { object: 0x108 },
        ]
    );
}

#[test]
fn a_draw_with_an_unknown_material_fails_the_build() {
    let materials = vec![ImportedMaterial { diffuse_texture: "a.png".to_string() }];
    let builder = ModelBuilder::load_from_obj(&vec![model_triangle(Some(3))], &materials).unwrap();
    let (build, first) = builder.build();
    let (build, requests, commands) = model_run(build, first, None);
    assert_eq!(requests.len(), 8);
    assert_eq!(build.finish(), Err(ResourceError::InvalidDraw));
    assert_eq!(commands.len(), 7);
}

#[test]
fn setup_checks_the_draws_first() {
    let draws = vec![DrawData { start_index: 1, num_tris: 1, material_idx: 0 }];
    let (setup, commands) = ModelSetup::start(vec![MeshVertex::default(); 3], vec![0, 1, 2], draws, vec![model_material(1)]);
    assert_eq!(setup.stage, ModelStage::Failed(ResourceError::InvalidDraw));
    assert_eq!(setup.request(), None);
    assert_eq!(
        commands,
        vec![
            Command::Release { object: 1 },
            Command::Release { object: 2 },
            Command::Release { object: 3 },
            Command::Release { object: 4 },
            Command::Release { object: 5 },
        ]
    );
    assert_eq!(Model::new(setup), Err(ResourceError::InvalidDraw));
}

#[test]
fn setup_refuses_an_empty_index_list_after_the_vertex_buffer() {
    let (setup, commands) = ModelSetup::start(vec![MeshVertex::default(); 3], vec![], vec![], vec![]);
    assert!(commands.is_empty());
    assert_eq!(setup.stage, ModelStage::CreateVertexBuffer);
    let (setup, commands) = setup.advance(Event::Object(NativeReply { status: 0, object: 0x50 }));
    assert_eq!(setup.stage, ModelStage::Failed(ResourceError::EmptyInput));
    assert_eq!(commands, vec![Command::Release { object: 0x50 }]);
}

#[test]
fn setup_failures_release_buffer_and_materials() {
    let start = || {
        ModelSetup::start(
            vec![MeshVertex::default(); 3],
            vec![0, 1, 2],
            vec![DrawData { start_index: 0, num_tris: 1, material_idx: 0 }],
            vec![model_material(1), model_material(11)],
        )
        .0
    };
    let (setup, commands) = start().advance(Event::Object(NativeReply { status: -1, object: 0 }));
    assert_eq!(Model::new(setup), Err(ResourceError::Rejected(-1)));
    assert_eq!(commands.len(), 10);
    assert_eq!(commands[0], Command::Release { object: 11 });
    assert_eq!(commands[5], Command::Release { object: 1 });

    let (setup, _) = start().advance(Event::Object(NativeReply { status: 0, object: 0x50 }));
    let (setup, commands) = setup.advance(Event::Object(NativeReply { status: -2, object: 0 }));
    assert_eq!(Model::new(setup), Err(ResourceError::Rejected(-2)));
    assert_eq!(commands.len(), 11);
    assert_eq!(commands[0], Command::Release { object: 0x50 });
}

#[test]
fn drawing_selects_each_material_before_its_draw() {
    let (setup, _) = ModelSetup::start(
        vec![MeshVertex::default(); 4],
        vec![0, 1, 2, 2, 1, 3, 0, 1, 3],
        vec![
            DrawData { start_index: 3, num_tris: 2, material_idx: 1 },
            DrawData { start_index: 0, num_tris: 1, material_idx: 0 },
        ],
        vec![model_material(1), model_material(11)],
    );
    let (setup, _) = setup.advance(Event::Object(NativeReply { status: 0, object: 0x50 }));
    let (setup, _) = setup.advance(Event::Object(NativeReply { status: 0, object: 0x51 }));
    let model = Model::new(setup).unwrap();
    let mut gfx = Graphics { device: 0xD, context: 0xC, commands: Vec::new() };
    model.draw(&mut gfx);
    assert_eq!(gfx.commands.len(), 2 + 2 * 6);
    assert_eq!(gfx.commands[2], Command::SetInputLayout { layout: 13 });
    assert_eq!(gfx.commands[7], Command::DrawIndexed { index_count: 6, start_index: 3, base_vertex: 0 });
    assert_eq!(gfx.commands[8], Command::SetInputLayout { layout: 3 });
    assert_eq!(gfx.commands[13], Command::DrawIndexed { index_count: 3, start_index: 0, base_vertex: 0 });
    let released = model.destroy();
    assert_eq!(released.len(), 12);
    assert_eq!(released[0], Command::Release { object: 0x50 });
    assert_eq!(released[1], Command::Release { object: 0x51 });
    assert_eq!(released[2], Command::Release { object: 11 });
}

#[test]
fn gathering_refuses_a_material_place_beyond_32_bits() {
    let far = (u32::MAX as usize).wrapping_add(1);
    if far != 0 {
        assert_eq!(
            ModelBuilder::load_from_obj(&vec![model_triangle(Some(far))], &vec![]),
            Err(ResourceError::TooLarge)
        );
    }
    let last = ModelBuilder::load_from_obj(&vec![model_triangle(Some(u32::MAX as usize))], &vec![]).unwrap();
    assert_eq!(last.draws[0].material_idx, UNRESOLVED_MATERIAL);
}

#[test]
fn a_model_is_drawable_with_materials_for_all_its_draws() {
    let model = |draws: Vec<DrawData>, mats: Vec<Material>| Model {
        vb: VertexBuffer { format: MeshVertex::get_format(), buff: 1 },
        ib: IndexBuffer { buff: 2, num_indices: 6 },
        draws,
        mats,
    };
    let draw = DrawData { start_index: 0, num_tris: 2, material_idx: 0 };
    assert!(model(vec![draw], vec![model_material(1)]).is_drawable());
    assert!(model(vec![], vec![]).is_drawable());
    assert!(!model(vec![draw], vec![]).is_drawable());
    assert!(!model(vec![DrawData { material_idx: UNRESOLVED_MATERIAL, ..draw }], vec![model_material(1)]).is_drawable());
    assert!(!model(vec![DrawData { num_tris: 3, ..draw }], vec![model_material(1)]).is_drawable());
    let mut swapped = model_material(1);
    swapped.vs = Shader::Pixel(1);
    assert!(!model(vec![draw], vec![swapped]).is_drawable());
}
