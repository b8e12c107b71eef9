//! Shaders and the stage each belongs to.
use vstd::prelude::*;
use crate::device::Request;
use crate::native;
use crate::shader_compiler::ShaderCode;

verus! {

/// The type of the shader.
#[derive(Debug, Copy, Clone, PartialEq, Eq, Structural)]
pub enum ShaderType {
    Vertex,
    Pixel,
}

impl ShaderType {
    /// The compiler profile of the stage.
    pub open spec fn profile(self) -> Seq<char> {
        match self {
            ShaderType::Vertex => "vs_5_0"@,
            ShaderType::Pixel => "ps_5_0"@,
        }
    }

    pub fn to_profile(self) -> (name: &'static str)
        ensures
            name@ == self.profile(),
    {
        match self {
            ShaderType::Vertex => "vs_5_0",
            ShaderType::Pixel => "ps_5_0",
        }
    }
}

/// A shader of the device, tagged with its stage.
#[derive(Debug, PartialEq)]
pub enum Shader {
    Vertex(u64),
    Pixel(u64),
}

impl Shader {
    /// The stage the shader was built for.
    pub open spec fn stage(self) -> ShaderType {
        match self {
            Shader::Vertex(_) => ShaderType::Vertex,
            Shader::Pixel(_) => ShaderType::Pixel,
        }
    }

    /// The native shader object.
    pub open spec fn object(self) -> u64 {
        match self {
            Shader::Vertex(object) => object,
            Shader::Pixel(object) => object,
        }
    }

    /// What to ask the device for a shader of `stage` from compiled code.
    pub fn request(stage: ShaderType, code: &ShaderCode) -> (r: Request)
        ensures
            stage == ShaderType::Vertex ==> r == (Request::CreateVertexShader { code: code.data }),
            stage == ShaderType::Pixel ==> r == (Request::CreatePixelShader { code: code.data }),
    {
        match stage {
            ShaderType::Vertex => Request::CreateVertexShader { code: code.data },
            ShaderType::Pixel => Request::CreatePixelShader { code: code.data },
        }
    }

    pub fn shader_type(&self) -> (stage: ShaderType)
        ensures
            stage == self.stage(),
    {
        match self {
            Shader::Vertex(_) => ShaderType::Vertex,
            Shader::Pixel(_) => ShaderType::Pixel,
        }
    }

    pub fn handle(&self) -> (object: u64)
        ensures
            object == self.object(),
    {
        match self {
            Shader::Vertex(object) => *object,
            Shader::Pixel(object) => *object,
        }
    }

    /// Gives up the native shader: the object to release, if the shader
    /// still holds one. The shader keeps its stage and is empty afterwards.
    pub fn release(&mut self) -> (released: Option<u64>)
        ensures
            old(self).object() != 0 ==> released == Some(old(self).object()),
            old(self).object() == 0 ==> released is None,
            final(self).stage() == old(self).stage(),
            final(self).object() == 0,
    {
        let mut object: u64 = self.handle();
        let empty = match self {
            Shader::Vertex(_) => Shader::Vertex(0),
            Shader::Pixel(_) => Shader::Pixel(0),
        };
        *self = empty;
        native::take_handle(&mut object)
    }
}

} // verus!
