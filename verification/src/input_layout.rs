//! Input layouts: the bridge between a vertex buffer and a vertex shader.
use vstd::prelude::*;
use crate::device::Request;
use crate::shader_compiler::ShaderCode;
use crate::native;
use crate::native::ResourceError;
use crate::vertex_format::InputElement;
use crate::vertex_format::SemanticType;
use crate::vertex_format::VertexFormat;
use crate::vertex_format::MAX_INPUTS;

verus! {

/// One vertex attribute as the device takes it. The semantic is one that
/// has a name.
#[derive(Debug, Copy, Clone, PartialEq, Eq, Structural)]
pub struct InputElementDesc {
    pub semantic: SemanticType,
    pub semantic_index: u32,
    pub format: u32,
    pub input_slot: u32,
    pub aligned_byte_offset: u32,
    pub input_slot_class: u32,
    pub instance_data_step_rate: u32,
}

/// The native form of one attribute; there is none where the attribute's
/// semantic has no name or its format no native code.
pub open spec fn element_desc(e: InputElement) -> Option<InputElementDesc> {
    if e.semantic.name() is Some && e.format.native() is Some {
        Some(
            InputElementDesc {
                semantic: e.semantic,
                semantic_index: e.semantic_index,
                format: e.format.native()->0,
                input_slot: e.input_slot,
                aligned_byte_offset: e.byte_offset,
                input_slot_class: e.slot_class.native(),
                instance_data_step_rate: e.instance_step_rate,
            },
        )
    } else {
        None
    }
}

/// Whether every attribute of the format has a native form.
pub open spec fn translatable(format: VertexFormat) -> bool {
    &&& format.wf()
    &&& forall|i: int| 0 <= i < format.num_inputs ==> element_desc(#[trigger] format.inputs[i]) is Some
}

/// Holds the input layout that bridges the gap between a vertex buffer and
/// a vertex shader.
#[derive(Debug, PartialEq)]
pub struct InputLayout {
    pub data: u64,
}

impl InputLayout {
    /// Translates the attributes of a format for the device, in order. A
    /// format with more attributes than places, or with an attribute that
    /// has no native form, gives `InvalidFormat`.
    pub fn elements(format: &VertexFormat) -> (r: Result<Vec<InputElementDesc>, ResourceError>)
        ensures
            !translatable(*format) ==> r == Err::<Vec<InputElementDesc>, ResourceError>(
                ResourceError::InvalidFormat,
            ),
            translatable(*format) ==> {
                &&& r matches Ok(elements)
                &&& elements@.len() == format.num_inputs
                &&& forall|i: int|
                    0 <= i < format.num_inputs ==> Some(#[trigger] elements@[i]) == element_desc(
                        format.inputs[i],
                    )
            },
    {
        if format.num_inputs as usize > MAX_INPUTS {
            return Err(ResourceError::InvalidFormat);
        }
        let mut elements: Vec<InputElementDesc> = Vec::new();
        let mut i: usize = 0;
        while i < format.num_inputs as usize
            invariant
                format.wf(),
                i <= format.num_inputs,
                elements@.len() == i,
                forall|k: int|
                    0 <= k < i ==> Some(#[trigger] elements@[k]) == element_desc(format.inputs[k]),
            decreases format.num_inputs - i,
        {
            let input = &format.inputs[i];
            let code = match input.format.to_native() {
                Some(code) => code,
                None => {
                    return Err(ResourceError::InvalidFormat);
                },
            };
            if input.semantic.to_name().is_none() {
                return Err(ResourceError::InvalidFormat);
            }
            elements.push(
                InputElementDesc {
                    semantic: input.semantic,
                    semantic_index: input.semantic_index,
                    format: code,
                    input_slot: input.input_slot,
                    aligned_byte_offset: input.byte_offset,
                    input_slot_class: input.slot_class.to_native(),
                    instance_data_step_rate: input.instance_step_rate,
                },
            );
            i += 1;
        }
        assert forall|k: int| 0 <= k < format.num_inputs implies element_desc(
            #[trigger] format.inputs[k],
        ) is Some by {
            assert(Some(elements@[k]) == element_desc(format.inputs[k]));
        }
        Ok(elements)
    }

    /// What to ask the device for the layout that feeds vertices of
    /// `format` to the vertex shader compiled to `vs_code`: the translated
    /// attributes, checked against that code. A format that does not
    /// translate gives `InvalidFormat`, code that holds nothing
    /// `EmptyInput`.
    pub fn request(format: &VertexFormat, vs_code: &ShaderCode) -> (r: Result<Request, ResourceError>)
        ensures
            !translatable(*format) ==> r == Err::<Request, ResourceError>(
                ResourceError::InvalidFormat,
            ),
            translatable(*format) && vs_code.data == 0 ==> r == Err::<Request, ResourceError>(
                ResourceError::EmptyInput,
            ),
            translatable(*format) && vs_code.data != 0 ==> {
                &&& r matches Ok(Request::CreateInputLayout { elements, code })
                &&& code == vs_code.data
                &&& elements@.len() == format.num_inputs
                &&& forall|i: int|
                    0 <= i < format.num_inputs ==> Some(#[trigger] elements@[i]) == element_desc(
                        format.inputs[i],
                    )
            },
    {
        match InputLayout::elements(format) {
            Err(e) => Err(e),
            Ok(elements) => {
                if vs_code.data == 0 {
                    Err(ResourceError::EmptyInput)
                } else {
                    Ok(Request::CreateInputLayout { elements, code: vs_code.data })
                }
            },
        }
    }

    /// Gives up the native layout: the object to release, if the layout
    /// still holds one. The layout is empty afterwards.
    pub fn release(&mut self) -> (released: Option<u64>)
        ensures
            old(self).data != 0 ==> released == Some(old(self).data),
            old(self).data == 0 ==> released is None,
            final(self).data == 0,
    {
        native::take_handle(&mut self.data)
    }
}

} // verus!
