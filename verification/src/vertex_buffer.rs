//! Vertex buffers: immutable vertex data together with its format.
use vstd::prelude::*;
use crate::native;
use crate::native::BufferDesc;
use crate::native::BufferRequest;
use crate::native::InitData;
use crate::native::NativeReply;
use crate::native::ResourceError;
use crate::vertex_format::VertexFormat;

verus! {

/// A structure that wraps vertex buffer functionality.
#[derive(Debug, PartialEq)]
pub struct VertexBuffer {
    pub format: VertexFormat,
    pub buff: u64,
}

impl VertexBuffer {
    /// The request for an immutable buffer of `num_verts` vertices of
    /// `stride` bytes each.
    pub open spec fn request_for(stride: u32, num_verts: u32) -> BufferRequest {
        BufferRequest {
            desc: BufferDesc {
                byte_width: (stride * num_verts) as u32,
                usage: native::USAGE_IMMUTABLE,
                bind_flags: native::BIND_VERTEX_BUFFER,
                cpu_access_flags: 0,
                misc_flags: 0,
                structure_byte_stride: stride,
            },
            init: Some(InitData { pitch: (num_verts * stride) as u32, slice_pitch: 0 }),
        }
    }

    /// What creating the buffer comes to before the device is asked: a
    /// buffer whose bytes do not fit 32 bits is refused.
    pub open spec fn checked(stride: u32, num_verts: u32) -> Result<BufferRequest, ResourceError> {
        if stride * num_verts > u32::MAX {
            Err(ResourceError::TooLarge)
        } else {
            Ok(VertexBuffer::request_for(stride, num_verts))
        }
    }

    /// Describes the buffer for the device.
    pub fn request(format: &VertexFormat, num_verts: u32) -> (r: Result<
        BufferRequest,
        ResourceError,
    >)
        ensures
            r == VertexBuffer::checked(format.stride, num_verts),
    {
        assert(format.stride * num_verts <= 0xFFFF_FFFF * 0xFFFF_FFFF) by (nonlinear_arith)
            requires
                0 <= format.stride <= 0xFFFF_FFFF,
                0 <= num_verts <= 0xFFFF_FFFF,
        ;
        assert(num_verts * format.stride == format.stride * num_verts) by (nonlinear_arith);
        let bytes: u64 = format.stride as u64 * num_verts as u64;
        if bytes > u32::MAX as u64 {
            return Err(ResourceError::TooLarge);
        }
        Ok(
            BufferRequest {
                desc: BufferDesc {
                    byte_width: bytes as u32,
                    usage: native::USAGE_IMMUTABLE,
                    bind_flags: native::BIND_VERTEX_BUFFER,
                    cpu_access_flags: 0,
                    misc_flags: 0,
                    structure_byte_stride: format.stride,
                },
                init: Some(InitData { pitch: bytes as u32, slice_pitch: 0 }),
            },
        )
    }

    /// Makes the buffer from what the device answered to `request`.
    pub fn new(format: &VertexFormat, num_verts: u32, reply: NativeReply) -> (r: Result<
        VertexBuffer,
        ResourceError,
    >)
        ensures
            VertexBuffer::checked(format.stride, num_verts) matches Err(e) ==> r == Err::<
                VertexBuffer,
                ResourceError,
            >(e),
            VertexBuffer::checked(format.stride, num_verts) is Ok && !reply.succeeded() ==> r
                == Err::<VertexBuffer, ResourceError>(ResourceError::Rejected(reply.status)),
            VertexBuffer::checked(format.stride, num_verts) is Ok && reply.succeeded() ==> r
                == Ok::<VertexBuffer, ResourceError>(
                VertexBuffer { format: *format, buff: reply.object },
            ),
    {
        match VertexBuffer::request(format, num_verts) {
            Err(e) => Err(e),
            Ok(_) => {
                if !reply.is_ok() {
                    Err(ResourceError::Rejected(reply.status))
                } else {
                    Ok(VertexBuffer { format: *format, buff: reply.object })
                }
            },
        }
    }

    /// Gives up the native buffer: the object to release, if the buffer
    /// still holds one. The buffer is empty afterwards.
    pub fn release(&mut self) -> (released: Option<u64>)
        ensures
            old(self).buff != 0 ==> released == Some(old(self).buff),
            old(self).buff == 0 ==> released is None,
            *final(self) == (VertexBuffer { buff: 0, ..*old(self) }),
    {
        native::take_handle(&mut self.buff)
    }
}

} // verus!
