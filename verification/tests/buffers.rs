use gfx::index_buffer::IndexBuffer;
use gfx::native::BufferDesc;
use gfx::native::BufferRequest;
use gfx::native::InitData;
use gfx::native::NativeReply;
use gfx::native::ResourceError;
use gfx::native::take_handle;
use gfx::shader_buffer::ShaderBuffer;
use gfx::vertex_buffer::VertexBuffer;
use gfx::vertex_format::FormatType;
use gfx::vertex_format::InputClass;
use gfx::vertex_format::SemanticType;
use gfx::vertex_format::VertexFormat;

fn buffers_ok(object: u64) -> NativeReply {
    NativeReply { status: 0, object }
}

fn buffers_failed(status: i32) -> NativeReply {
    NativeReply { status, object: 0 }
}

#[test]
fn index_buffer_from_no_indices_is_refused() {
    assert_eq!(IndexBuffer::request(&[]), Err(ResourceError::EmptyInput));
    assert_eq!(IndexBuffer::new(&[], buffers_ok(7)), Err(ResourceError::EmptyInput));
}

#[test]
fn index_buffer_request_describes_an_immutable_buffer() {
    let request = IndexBuffer::request(&[0, 1, 2, 2, 1, 3]).unwrap();
    assert_eq!(
        request,
        BufferRequest {
            desc: BufferDesc {
                byte_width: 24,
                usage: 1,
                bind_flags: 2,
                cpu_access_flags: 0,
                misc_flags: 0,
                structure_byte_stride: 4,
            },
            init: Some(InitData { pitch: 24, slice_pitch: 0 }),
        }
    );
}

#[test]
fn index_buffer_follows_the_device() {
    assert_eq!(
        IndexBuffer::new(&[0, 1, 2], buffers_ok(0x1000)),
        Ok(IndexBuffer { buff: 0x1000, num_indices: 3 })
    );
    assert_eq!(
        IndexBuffer::new(&[0, 1, 2], buffers_failed(-2147024809)),
        Err(ResourceError::Rejected(-2147024809))
    );
}

#[test]
fn a_status_other_than_ok_is_a_failure() {
    let reply = NativeReply { status: 1, object: 0x10 };
    assert!(!reply.is_ok());
    assert_eq!(IndexBuffer::new(&[0], reply), Err(ResourceError::Rejected(1)));
}

#[test]
fn release_hands_the_object_out_once() {
    let mut ib = IndexBuffer::new(&[0, 1, 2], buffers_ok(0x1000)).unwrap();
    assert_eq!(ib.release(), Some(0x1000));
    assert_eq!(ib.buff, 0);
    assert_eq!(ib.num_indices, 3);
    assert_eq!(ib.release(), None);
    assert_eq!(ib.release(), None);
}

#[test]
fn take_handle_empties_the_handle() {
    let mut handle = 5u64;
    assert_eq!(take_handle(&mut handle), Some(5));
    assert_eq!(handle, 0);
    assert_eq!(take_handle(&mut handle), None);
}

#[test]
fn constant_buffer_of_no_bytes_is_refused() {
    assert_eq!(ShaderBuffer::request(0), Err(ResourceError::ZeroSize));
    assert_eq!(ShaderBuffer::new_constant_buffer(0, buffers_ok(3)), Err(ResourceError::ZeroSize));
}

#[test]
fn constant_buffer_is_rounded_up_to_sixteen() {
    assert_eq!(ShaderBuffer::request(20).unwrap().desc.byte_width, 32);
    assert_eq!(ShaderBuffer::request(1).unwrap().desc.byte_width, 16);
    assert_eq!(ShaderBuffer::request(16).unwrap().desc.byte_width, 16);
    assert_eq!(ShaderBuffer::request(17).unwrap().desc.byte_width, 32);
    assert_eq!(ShaderBuffer::request(256).unwrap().desc.byte_width, 256);
    for size in 1usize..200 {
        let width = ShaderBuffer::request(size).unwrap().desc.byte_width as usize;
        assert_eq!(width % 16, 0);
        assert!(width >= size);
        assert!(width < size + 16);
    }
}

#[test]
fn constant_buffer_request_describes_a_dynamic_buffer() {
    assert_eq!(
        ShaderBuffer::request(20),
        Ok(BufferRequest {
            desc: BufferDesc {
                byte_width: 32,
                usage: 2,
                bind_flags: 4,
                cpu_access_flags: 0x10000,
                misc_flags: 0,
                structure_byte_stride: 0,
            },
            init: None,
        })
    );
}

#[test]
fn constant_buffer_too_large_for_the_device() {
    assert_eq!(ShaderBuffer::request(u32::MAX as usize), Err(ResourceError::TooLarge));
    assert_eq!(
        ShaderBuffer::request(u32::MAX as usize - 15).unwrap().desc.byte_width,
        0xFFFF_FFF0
    );
}

#[test]
fn constant_buffer_follows_the_device() {
    assert_eq!(
        ShaderBuffer::new_constant_buffer(20, buffers_ok(9)),
        Ok(ShaderBuffer { buff: 9, size: 32 })
    );
    assert_eq!(
        ShaderBuffer::new_constant_buffer(20, buffers_failed(-5)),
        Err(ResourceError::Rejected(-5))
    );
}

fn buffers_format() -> VertexFormat {
    VertexFormat::new()
        .add_new_element(FormatType::R32G32B32Float, 12, SemanticType::Position, 0, 0, InputClass::PerVertex, 0)
        .add_new_element(FormatType::R8G8B8A8UNorm, 4, SemanticType::TexCoord, 0, 0, InputClass::PerVertex, 0)
}

#[test]
fn vertex_buffer_request_multiplies_stride_and_count() {
    let format = buffers_format();
    assert_eq!(
        VertexBuffer::request(&format, 10),
        Ok(BufferRequest {
            desc: BufferDesc {
                byte_width: 160,
                usage: 1,
                bind_flags: 1,
                cpu_access_flags: 0,
                misc_flags: 0,
                structure_byte_stride: 16,
            },
            init: Some(InitData { pitch: 160, slice_pitch: 0 }),
        })
    );
}

#[test]
fn vertex_buffer_too_large_for_the_device() {
    let format = buffers_format();
    assert_eq!(VertexBuffer::request(&format, 0x1000_0000), Err(ResourceError::TooLarge));
    assert_eq!(VertexBuffer::new(&format, 0x1000_0000, buffers_ok(1)), Err(ResourceError::TooLarge));
    assert!(VertexBuffer::request(&format, 0x0FFF_FFFF).is_ok());
}

#[test]
fn vertex_buffer_follows_the_device() {
    let format = buffers_format();
    let vb = VertexBuffer::new(&format, 3, buffers_ok(77)).unwrap();
    assert_eq!(vb.buff, 77);
    assert_eq!(vb.format.stride, 16);
    assert_eq!(vb.format.num_inputs, 2);
    assert_eq!(VertexBuffer::new(&format, 3, buffers_failed(-1)), Err(ResourceError::Rejected(-1)));
}
