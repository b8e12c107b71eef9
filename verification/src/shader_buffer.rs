//! Constant buffers: dynamic buffers that the processor writes and shaders
//! read.
use vstd::prelude::*;
use crate::native;
use crate::native::BufferDesc;
use crate::native::BufferRequest;
use crate::native::NativeReply;
use crate::native::ResourceError;

verus! {

/// The device allocates constant buffers in multiples of this many bytes.
pub const CONSTANT_BUFFER_ALIGNMENT: usize = 16;

/// The least multiple of the alignment that holds `size` bytes.
pub open spec fn aligned_size(size: int) -> int {
    16 * ((size + 15) / 16)
}

/// The allocation for `size` bytes is a multiple of the alignment, holds
/// `size` bytes and wastes less than one unit of alignment.
pub proof fn lemma_aligned_size(size: int)
    requires
        size >= 0,
    ensures
        aligned_size(size) % 16 == 0,
        size <= aligned_size(size) < size + 16,
{
}

/// A structure that wraps a dynamic buffer of shader constants.
#[derive(Debug, PartialEq)]
pub struct ShaderBuffer {
    pub buff: u64,
    /// The bytes allocated.
    pub size: u32,
}

impl ShaderBuffer {
    /// The request for a dynamic, processor-writable constant buffer of
    /// `bytes` bytes.
    pub open spec fn request_for(bytes: u32) -> BufferRequest {
        BufferRequest {
            desc: BufferDesc {
                byte_width: bytes,
                usage: native::USAGE_DYNAMIC,
                bind_flags: native::BIND_CONSTANT_BUFFER,
                cpu_access_flags: native::CPU_ACCESS_WRITE,
                misc_flags: 0,
                structure_byte_stride: 0,
            },
            init: None,
        }
    }

    /// What creating a buffer for `size` bytes comes to before the device is
    /// asked: no bytes are refused, and so is an allocation that does not
    /// fit 32 bits; otherwise the aligned size is asked for.
    pub open spec fn checked(size: int) -> Result<BufferRequest, ResourceError> {
        if size == 0 {
            Err(ResourceError::ZeroSize)
        } else if aligned_size(size) > u32::MAX {
            Err(ResourceError::TooLarge)
        } else {
            Ok(ShaderBuffer::request_for(aligned_size(size) as u32))
        }
    }

    /// Describes the buffer for the device.
    pub fn request(size: usize) -> (r: Result<BufferRequest, ResourceError>)
        ensures
            r == ShaderBuffer::checked(size as int),
            r matches Ok(request) ==> request.desc.byte_width % 16 == 0 && request.desc.byte_width
                >= size,
    {
        if size == 0 {
            return Err(ResourceError::ZeroSize);
        }
        if size > (u32::MAX - 15) as usize {
            return Err(ResourceError::TooLarge);
        }
        let rounded: u32 = 16 * ((size as u32 + 15) / 16);
        Ok(
            BufferRequest {
                desc: BufferDesc {
                    byte_width: rounded,
                    usage: native::USAGE_DYNAMIC,
                    bind_flags: native::BIND_CONSTANT_BUFFER,
                    cpu_access_flags: native::CPU_ACCESS_WRITE,
                    misc_flags: 0,
                    structure_byte_stride: 0,
                },
                init: None,
            },
        )
    }

    /// Makes the buffer from what the device answered to `request`.
    pub fn new_constant_buffer(size: usize, reply: NativeReply) -> (r: Result<
        ShaderBuffer,
        ResourceError,
    >)
        ensures
            ShaderBuffer::checked(size as int) matches Err(e) ==> r == Err::<
                ShaderBuffer,
                ResourceError,
            >(e),
            ShaderBuffer::checked(size as int) is Ok && !reply.succeeded() ==> r == Err::<
                ShaderBuffer,
                ResourceError,
            >(ResourceError::Rejected(reply.status)),
            ShaderBuffer::checked(size as int) is Ok && reply.succeeded() ==> r == Ok::<
                ShaderBuffer,
                ResourceError,
            >(ShaderBuffer { buff: reply.object, size: aligned_size(size as int) as u32 }),
            r matches Ok(buffer) ==> buffer.size % 16 == 0 && buffer.size >= size,
    {
        match ShaderBuffer::request(size) {
            Err(e) => Err(e),
            Ok(request) => {
                if !reply.is_ok() {
                    Err(ResourceError::Rejected(reply.status))
                } else {
                    Ok(ShaderBuffer { buff: reply.object, size: request.desc.byte_width })
                }
            },
        }
    }

    /// Gives up the native buffer: the object to release, if the buffer
    /// still holds one. The buffer is empty afterwards.
    pub fn release(&mut self) -> (released: Option<u64>)
        ensures
            old(self).buff != 0 ==> released == Some(old(self).buff),
            old(self).buff == 0 ==> released is None,
            *final(self) == (ShaderBuffer { buff: 0, ..*old(self) }),
    {
        native::take_handle(&mut self.buff)
    }
}

} // verus!
