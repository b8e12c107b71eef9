//! Shader inputs: views through which a shader reads a resource.
use vstd::prelude::*;
use crate::device::Request;
use crate::texture::Texture;
use crate::native;
use crate::native::NativeReply;
use crate::native::ResourceError;

verus! {

/// Texture or buffer input for a shader.
#[derive(Debug, PartialEq)]
pub struct ShaderInput {
    pub srv: u64,
}

impl ShaderInput {
    /// What to ask the device for an input that reads `tex`.
    pub fn request(tex: &Texture) -> (r: Request)
        ensures
            r == (Request::CreateShaderResourceView { resource: tex.res }),
    {
        Request::CreateShaderResourceView { resource: tex.res }
    }

    /// Makes the input from what the device answered to `request`.
    pub fn new(reply: NativeReply) -> (r: Result<ShaderInput, ResourceError>)
        ensures
            !reply.succeeded() ==> r == Err::<ShaderInput, ResourceError>(
                ResourceError::Rejected(reply.status),
            ),
            reply.succeeded() ==> r == Ok::<ShaderInput, ResourceError>(
                ShaderInput { srv: reply.object },
            ),
    {
        if !reply.is_ok() {
            Err(ResourceError::Rejected(reply.status))
        } else {
            Ok(ShaderInput { srv: reply.object })
        }
    }

    /// Gives up the native view: the object to release, if the input still
    /// holds one. The input is empty afterwards.
    pub fn release(&mut self) -> (released: Option<u64>)
        ensures
            old(self).srv != 0 ==> released == Some(old(self).srv),
            old(self).srv == 0 ==> released is None,
            final(self).srv == 0,
    {
        native::take_handle(&mut self.srv)
    }
}

} // verus!
