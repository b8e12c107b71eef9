//! Index buffers: immutable lists of 32-bit vertex indices.
use vstd::prelude::*;
use crate::native;
use crate::native::BufferDesc;
use crate::native::BufferRequest;
use crate::native::InitData;
use crate::native::NativeReply;
use crate::native::ResourceError;

verus! {

/// The bytes that one index takes.
pub const INDEX_SIZE: u32 = 4;

/// A structure that wraps index buffer functionality.
#[derive(Debug, PartialEq)]
pub struct IndexBuffer {
    pub buff: u64,
    pub num_indices: u32,
}

impl IndexBuffer {
    /// The request for an immutable buffer of `count` indices.
    pub open spec fn request_for(count: int) -> BufferRequest {
        BufferRequest {
            desc: BufferDesc {
                byte_width: (count * INDEX_SIZE) as u32,
                usage: native::USAGE_IMMUTABLE,
                bind_flags: native::BIND_INDEX_BUFFER,
                cpu_access_flags: 0,
                misc_flags: 0,
                structure_byte_stride: INDEX_SIZE,
            },
            init: Some(InitData { pitch: (count * INDEX_SIZE) as u32, slice_pitch: 0 }),
        }
    }

    /// What creating a buffer of `count` indices comes to before the device
    /// is asked: an empty list is refused, and so is one whose bytes do not
    /// fit 32 bits.
    pub open spec fn checked(count: int) -> Result<BufferRequest, ResourceError> {
        if count == 0 {
            Err(ResourceError::EmptyInput)
        } else if count * INDEX_SIZE > u32::MAX {
            Err(ResourceError::TooLarge)
        } else {
            Ok(IndexBuffer::request_for(count))
        }
    }

    /// Describes the buffer for the device.
    pub fn request(indices: &[u32]) -> (r: Result<BufferRequest, ResourceError>)
        ensures
            r == IndexBuffer::checked(indices@.len() as int),
    {
        let count: usize = indices.len();
        if count == 0 {
            return Err(ResourceError::EmptyInput);
        }
        if count > (u32::MAX / INDEX_SIZE) as usize {
            return Err(ResourceError::TooLarge);
        }
        let byte_width: u32 = count as u32 * INDEX_SIZE;
        Ok(
            BufferRequest {
                desc: BufferDesc {
                    byte_width,
                    usage: native::USAGE_IMMUTABLE,
                    bind_flags: native::BIND_INDEX_BUFFER,
                    cpu_access_flags: 0,
                    misc_flags: 0,
                    structure_byte_stride: INDEX_SIZE,
                },
                init: Some(InitData { pitch: byte_width, slice_pitch: 0 }),
            },
        )
    }

    /// Makes the buffer from what the device answered to `request`.
    pub fn new(indices: &[u32], reply: NativeReply) -> (r: Result<IndexBuffer, ResourceError>)
        ensures
            IndexBuffer::checked(indices@.len() as int) matches Err(e) ==> r == Err::<
                IndexBuffer,
                ResourceError,
            >(e),
            IndexBuffer::checked(indices@.len() as int) is Ok && !reply.succeeded() ==> r == Err::<
                IndexBuffer,
                ResourceError,
            >(ResourceError::Rejected(reply.status)),
            IndexBuffer::checked(indices@.len() as int) is Ok && reply.succeeded() ==> r == Ok::<
                IndexBuffer,
                ResourceError,
            >(IndexBuffer { buff: reply.object, num_indices: indices@.len() as u32 }),
    {
        match IndexBuffer::request(indices) {
            Err(e) => Err(e),
            Ok(_) => {
                if !reply.is_ok() {
                    Err(ResourceError::Rejected(reply.status))
                } else {
                    Ok(IndexBuffer { buff: reply.object, num_indices: indices.len() as u32 })
                }
            },
        }
    }

    /// Gives up the native buffer: the object to release, if the buffer
    /// still holds one. The buffer is empty afterwards.
    pub fn release(&mut self) -> (released: Option<u64>)
        ensures
            old(self).buff != 0 ==> released == Some(old(self).buff),
            old(self).buff == 0 ==> released is None,
            *final(self) == (IndexBuffer { buff: 0, ..*old(self) }),
    {
        native::take_handle(&mut self.buff)
    }
}

} // verus!
