//! The byte layout of a vertex buffer, described as an ordered list of
//! attributes, and the tables that translate its enums for the device.
use vstd::prelude::*;
use crate::color::Color4;
use crate::color::Color4T;
use crate::native;
use crate::numerics::Point3F;
use crate::numerics::Vector2F;
use crate::numerics::Vector3F;
use crate::numerics::ZERO;

verus! {

/// The most attributes a vertex format can hold.
pub const MAX_INPUTS: usize = 8;

/// The format of one vertex attribute.
#[derive(Debug, Copy, Clone, PartialEq, Eq, Structural)]
pub enum FormatType {
    Invalid,
    R8UNorm,
    R8G8UNorm,
    R8G8B8A8UNorm,
    R8SNorm,
    R8G8SNorm,
    R8G8B8A8SNorm,
    R16UNorm,
    R16G16UNorm,
    R16G16B16A16UNorm,
    R16SNorm,
    R16G16SNorm,
    R16G16B16A16SNorm,
    R16Float,
    R16G16Float,
    R16G16B16A16Float,
    R32Float,
    R32G32Float,
    R32G32B32Float,
    R32G32B32A32Float,
    NumFormatTypes,
}

impl FormatType {
    /// The native code of the format. `Invalid` and the counting variant
    /// have none.
    pub open spec fn native(self) -> Option<u32> {
        match self {
            FormatType::Invalid => None,
            FormatType::R8UNorm => Some(native::FORMAT_R8_UNORM),
            FormatType::R8G8UNorm => Some(native::FORMAT_R8G8_UNORM),
            FormatType::R8G8B8A8UNorm => Some(native::FORMAT_R8G8B8A8_UNORM),
            FormatType::R8SNorm => Some(native::FORMAT_R8_SNORM),
            FormatType::R8G8SNorm => Some(native::FORMAT_R8G8_SNORM),
            FormatType::R8G8B8A8SNorm => Some(native::FORMAT_R8G8B8A8_SNORM),
            FormatType::R16UNorm => Some(native::FORMAT_R16_UNORM),
            FormatType::R16G16UNorm => Some(native::FORMAT_R16G16_UNORM),
            FormatType::R16G16B16A16UNorm => Some(native::FORMAT_R16G16B16A16_UNORM),
            FormatType::R16SNorm => Some(native::FORMAT_R16_SNORM),
            FormatType::R16G16SNorm => Some(native::FORMAT_R16G16_SNORM),
            FormatType::R16G16B16A16SNorm => Some(native::FORMAT_R16G16B16A16_SNORM),
            FormatType::R16Float => Some(native::FORMAT_R16_FLOAT),
            FormatType::R16G16Float => Some(native::FORMAT_R16G16_FLOAT),
            FormatType::R16G16B16A16Float => Some(native::FORMAT_R16G16B16A16_FLOAT),
            FormatType::R32Float => Some(native::FORMAT_R32_FLOAT),
            FormatType::R32G32Float => Some(native::FORMAT_R32G32_FLOAT),
            FormatType::R32G32B32Float => Some(native::FORMAT_R32G32B32_FLOAT),
            FormatType::R32G32B32A32Float => Some(native::FORMAT_R32G32B32A32_FLOAT),
            FormatType::NumFormatTypes => None,
        }
    }

    pub fn to_native(self) -> (code: Option<u32>)
        ensures
            code == self.native(),
    {
        match self {
            FormatType::Invalid => None,
            FormatType::R8UNorm => Some(native::FORMAT_R8_UNORM),
            FormatType::R8G8UNorm => Some(native::FORMAT_R8G8_UNORM),
            FormatType::R8G8B8A8UNorm => Some(native::FORMAT_R8G8B8A8_UNORM),
            FormatType::R8SNorm => Some(native::FORMAT_R8_SNORM),
            FormatType::R8G8SNorm => Some(native::FORMAT_R8G8_SNORM),
            FormatType::R8G8B8A8SNorm => Some(native::FORMAT_R8G8B8A8_SNORM),
            FormatType::R16UNorm => Some(native::FORMAT_R16_UNORM),
            FormatType::R16G16UNorm => Some(native::FORMAT_R16G16_UNORM),
            FormatType::R16G16B16A16UNorm => Some(native::FORMAT_R16G16B16A16_UNORM),
            FormatType::R16SNorm => Some(native::FORMAT_R16_SNORM),
            FormatType::R16G16SNorm => Some(native::FORMAT_R16G16_SNORM),
            FormatType::R16G16B16A16SNorm => Some(native::FORMAT_R16G16B16A16_SNORM),
            FormatType::R16Float => Some(native::FORMAT_R16_FLOAT),
            FormatType::R16G16Float => Some(native::FORMAT_R16G16_FLOAT),
            FormatType::R16G16B16A16Float => Some(native::FORMAT_R16G16B16A16_FLOAT),
            FormatType::R32Float => Some(native::FORMAT_R32_FLOAT),
            FormatType::R32G32Float => Some(native::FORMAT_R32G32_FLOAT),
            FormatType::R32G32B32Float => Some(native::FORMAT_R32G32B32_FLOAT),
            FormatType::R32G32B32A32Float => Some(native::FORMAT_R32G32B32A32_FLOAT),
            FormatType::NumFormatTypes => None,
        }
    }
}

/// What a vertex attribute means to the vertex shader.
#[derive(Debug, Copy, Clone, PartialEq, Eq, Structural)]
pub enum SemanticType {
    Invalid,
    Position,
    Normal,
    Tangent,
    Bitangent,
    TexCoord,
    NumSemanticTypes,
}

impl SemanticType {
    /// The name under which a vertex shader declares the semantic. `Invalid`
    /// and the counting variant have none.
    pub open spec fn name(self) -> Option<Seq<char>> {
        match self {
            SemanticType::Invalid => None,
            SemanticType::Position => Some("POSITION"@),
            SemanticType::Normal => Some("NORMAL"@),
            SemanticType::Tangent => Some("TANGENT"@),
            SemanticType::Bitangent => Some("BITANGENT"@),
            SemanticType::TexCoord => Some("TEXCOORD"@),
            SemanticType::NumSemanticTypes => None,
        }
    }

    pub fn to_name(self) -> (name: Option<&'static str>)
        ensures
            name is Some <==> self.name() is Some,
            name is Some ==> name->0@ == self.name()->0,
    {
        match self {
            SemanticType::Invalid => None,
            SemanticType::Position => Some("POSITION"),
            SemanticType::Normal => Some("NORMAL"),
            SemanticType::Tangent => Some("TANGENT"),
            SemanticType::Bitangent => Some("BITANGENT"),
            SemanticType::TexCoord => Some("TEXCOORD"),
            SemanticType::NumSemanticTypes => None,
        }
    }
}

/// Whether an attribute advances with each vertex or with each instance.
#[derive(Debug, Copy, Clone, PartialEq, Eq, Structural)]
pub enum InputClass {
    PerVertex,
    PerInstance,
}

impl InputClass {
    pub open spec fn native(self) -> u32 {
        match self {
            InputClass::PerVertex => 0,
            InputClass::PerInstance => 1,
        }
    }

    pub fn to_native(self) -> (code: u32)
        ensures
            code == self.native(),
    {
        match self {
            InputClass::PerVertex => 0,
            InputClass::PerInstance => 1,
        }
    }
}

/// One attribute of a vertex buffer.
#[derive(Debug, Copy, Clone, PartialEq, Eq, Structural)]
pub struct InputElement {
    pub semantic: SemanticType,
    pub semantic_index: u32,
    pub format: FormatType,
    pub input_slot: u32,
    pub byte_offset: u32,
    pub slot_class: InputClass,
    pub instance_step_rate: u32,
}

impl InputElement {
    /// The element that fills the unused places of a format.
    pub open spec fn blank() -> InputElement {
        InputElement {
            semantic: SemanticType::Invalid,
            semantic_index: 0,
            format: FormatType::Invalid,
            input_slot: 0,
            byte_offset: 0,
            slot_class: InputClass::PerVertex,
            instance_step_rate: 0,
        }
    }
}

impl Default for InputElement {
    fn default() -> (e: InputElement)
        ensures
            e == InputElement::blank(),
    {
        InputElement {
            semantic: SemanticType::Invalid,
            semantic_index: 0,
            format: FormatType::Invalid,
            input_slot: 0,
            byte_offset: 0,
            slot_class: InputClass::PerVertex,
            instance_step_rate: 0,
        }
    }
}

/// What a vertex format stands for: its attributes in order, and the number
/// of bytes from one vertex to the next.
pub struct Layout {
    pub elements: Seq<InputElement>,
    pub stride: int,
}

impl Layout {
    pub open spec fn empty() -> Layout {
        Layout { elements: Seq::empty(), stride: 0 }
    }

    /// The layout with `elem` appended as it is and `size_bytes` more bytes.
    pub open spec fn with_element(self, elem: InputElement, size_bytes: int) -> Layout {
        Layout { elements: self.elements.push(elem), stride: self.stride + size_bytes }
    }

    /// The layout with a new attribute appended: the attribute starts at
    /// the stride reached so far, padding included, and the stride grows by
    /// the bytes the attribute takes.
    pub open spec fn with_new_element(self, decl: ElementDecl) -> Layout {
        self.with_element(decl.at(self.stride), decl.size_bytes as int)
    }

    /// The layout with `size_bytes` unused bytes appended.
    pub open spec fn with_padding(self, size_bytes: int) -> Layout {
        Layout { elements: self.elements, stride: self.stride + size_bytes }
    }
}

/// The declaration of one attribute: everything but its offset, which the
/// format assigns, together with the bytes the attribute takes.
pub struct ElementDecl {
    pub format: FormatType,
    pub size_bytes: u32,
    pub semantic: SemanticType,
    pub semantic_index: u32,
    pub input_slot: u32,
    pub slot_class: InputClass,
    pub instance_step_rate: u32,
}

impl ElementDecl {
    /// The attribute that the declaration gives when placed at `byte_offset`.
    pub open spec fn at(self, byte_offset: int) -> InputElement {
        InputElement {
            semantic: self.semantic,
            semantic_index: self.semantic_index,
            format: self.format,
            input_slot: self.input_slot,
            byte_offset: byte_offset as u32,
            slot_class: self.slot_class,
            instance_step_rate: self.instance_step_rate,
        }
    }
}

/// The bytes that the declarations take together.
pub open spec fn total_size(decls: Seq<ElementDecl>) -> int
    decreases decls.len(),
{
    if decls.len() == 0 {
        0
    } else {
        total_size(decls.drop_last()) + decls.last().size_bytes
    }
}

/// The layout that an empty format reaches when the declarations are added
/// to it one after the other.
pub open spec fn built(decls: Seq<ElementDecl>) -> Layout
    decreases decls.len(),
{
    if decls.len() == 0 {
        Layout::empty()
    } else {
        built(decls.drop_last()).with_new_element(decls.last())
    }
}

/// One step of building a format: a new attribute, or unused bytes.
pub enum BuildStep {
    Attribute(ElementDecl),
    Padding(u32),
}

impl BuildStep {
    /// The bytes that the step adds to the stride.
    pub open spec fn size(self) -> int {
        match self {
            BuildStep::Attribute(decl) => decl.size_bytes as int,
            BuildStep::Padding(size_bytes) => size_bytes as int,
        }
    }
}

/// The bytes that the steps add together, padding included.
pub open spec fn steps_size(steps: Seq<BuildStep>) -> int
    decreases steps.len(),
{
    if steps.len() == 0 {
        0
    } else {
        steps_size(steps.drop_last()) + steps.last().size()
    }
}

/// The number of attributes among the steps.
pub open spec fn attributes(steps: Seq<BuildStep>) -> int
    decreases steps.len(),
{
    if steps.len() == 0 {
        0
    } else if steps.last() is Attribute {
        attributes(steps.drop_last()) + 1
    } else {
        attributes(steps.drop_last())
    }
}

/// The layout that an empty format reaches when the steps are taken one
/// after the other.
pub open spec fn laid_out(steps: Seq<BuildStep>) -> Layout
    decreases steps.len(),
{
    if steps.len() == 0 {
        Layout::empty()
    } else {
        match steps.last() {
            BuildStep::Attribute(decl) => laid_out(steps.drop_last()).with_new_element(decl),
            BuildStep::Padding(size_bytes) => laid_out(steps.drop_last()).with_padding(
                size_bytes as int,
            ),
        }
    }
}

/// Describes the format of a vertex buffer. Only the first `num_inputs`
/// places of `inputs` belong to the format.
#[derive(Debug, Copy, Clone, PartialEq)]
pub struct VertexFormat {
    pub num_inputs: u32,
    pub stride: u32,
    pub inputs: [InputElement; MAX_INPUTS],
}

impl View for VertexFormat {
    type V = Layout;

    open spec fn view(&self) -> Layout {
        Layout {
            elements: self.inputs@.take(self.num_inputs as int),
            stride: self.stride as int,
        }
    }
}

impl VertexFormat {
    /// A format holds no more attributes than it has places.
    pub open spec fn wf(self) -> bool {
        self.num_inputs <= MAX_INPUTS
    }

    /// An empty format. Every place holds the blank element.
    pub fn new() -> (f: VertexFormat)
        ensures
            f.wf(),
            f.num_inputs == 0,
            f.stride == 0,
            forall|i: int| 0 <= i < MAX_INPUTS ==> f.inputs[i] == InputElement::blank(),
            f@ == Layout::empty(),
    {
        let blank = InputElement::default();
        let f = VertexFormat { num_inputs: 0, stride: 0, inputs: [blank; MAX_INPUTS] };
        assert(f@.elements =~= Seq::<InputElement>::empty());
        f
    }

    /// Appends `elem` as it is, offset included, and counts `size_bytes` more
    /// bytes per vertex. The element is written to the first free place;
    /// every other place stays as it is.
    pub fn add_element(self, elem: &InputElement, size_bytes: u32) -> (f: VertexFormat)
        requires
            self.num_inputs < MAX_INPUTS,
            self.stride + size_bytes <= u32::MAX,
        ensures
            f.wf(),
            f.num_inputs == self.num_inputs + 1,
            f.stride == self.stride + size_bytes,
            f.inputs@ == self.inputs@.update(self.num_inputs as int, *elem),
            f@ == self@.with_element(*elem, size_bytes as int),
    {
        let mut f = self;
        f.inputs[f.num_inputs as usize] = *elem;
        f.num_inputs += 1;
        f.stride += size_bytes;
        assert(f.inputs@ =~= self.inputs@.update(self.num_inputs as int, *elem));
        assert(f@.elements =~= self@.elements.push(*elem));
        f
    }

    /// Appends a new attribute behind what the format holds: it starts at
    /// the stride reached so far, padding included. The attribute is
    /// written to the first free place; every other place stays as it is.
    pub fn add_new_element(
        self,
        format: FormatType,
        size_bytes: u32,
        semantic: SemanticType,
        semantic_index: u32,
        input_slot: u32,
        slot_class: InputClass,
        instance_step_rate: u32,
    ) -> (f: VertexFormat)
        requires
            self.num_inputs < MAX_INPUTS,
            self.stride + size_bytes <= u32::MAX,
        ensures
            f.wf(),
            f.num_inputs == self.num_inputs + 1,
            f.stride == self.stride + size_bytes,
            f.inputs@ == self.inputs@.update(
                self.num_inputs as int,
                InputElement {
                    semantic,
                    semantic_index,
                    format,
                    input_slot,
                    byte_offset: self.stride,
                    slot_class,
                    instance_step_rate,
                },
            ),
            f@ == self@.with_new_element(
                ElementDecl {
                    format,
                    size_bytes,
                    semantic,
                    semantic_index,
                    input_slot,
                    slot_class,
                    instance_step_rate,
                },
            ),
    {
        let elem = InputElement {
            semantic,
            semantic_index,
            format,
            input_slot,
            byte_offset: self.stride,
            slot_class,
            instance_step_rate,
        };
        self.add_element(&elem, size_bytes)
    }

    /// Leaves `size_bytes` unused bytes behind what the format holds.
    /// Nothing but the stride changes.
    pub fn add_padding(self, size_bytes: u32) -> (f: VertexFormat)
        requires
            self.stride + size_bytes <= u32::MAX,
        ensures
            f == (VertexFormat { stride: (self.stride + size_bytes) as u32, ..self }),
            f@ == self@.with_padding(size_bytes as int),
    {
        let mut f = self;
        f.stride += size_bytes;
        f
    }

    /// Clears the format to empty. The places keep what they held.
    pub fn reset(&mut self)
        ensures
            *final(self) == (VertexFormat { num_inputs: 0, stride: 0, ..*old(self) }),
            final(self).wf(),
            final(self)@ == Layout::empty(),
    {
        self.num_inputs = 0;
        self.stride = 0;
        assert(self@.elements =~= Seq::<InputElement>::empty());
    }
}

/// Whether `f` is the format that a new format becomes when the declared
/// attributes are added to it: it holds them as built, and every place
/// behind them holds the blank element.
pub open spec fn fresh_format(f: VertexFormat, decls: Seq<ElementDecl>) -> bool {
    &&& f.wf()
    &&& f.num_inputs == decls.len()
    &&& f@ == built(decls)
    &&& forall|i: int| decls.len() <= i < MAX_INPUTS ==> f.inputs[i] == InputElement::blank()
}

/// A format built from attribute declarations alone has as its stride the
/// sum of the declared sizes, and places each attribute at the sum of the
/// sizes declared before it.
pub proof fn lemma_built_stride_and_offsets(decls: Seq<ElementDecl>)
    requires
        total_size(decls) <= u32::MAX,
    ensures
        built(decls).stride == total_size(decls),
        built(decls).elements.len() == decls.len(),
        forall|i: int|
            0 <= i < decls.len() ==> #[trigger] built(decls).elements[i] == decls[i].at(
                total_size(decls.take(i)),
            ),
        forall|i: int|
            0 <= i < decls.len() ==> (#[trigger] built(decls).elements[i]).byte_offset
                == total_size(decls.take(i)),
    decreases decls.len(),
{
    if decls.len() > 0 {
        let init = decls.drop_last();
        lemma_total_size_nonnegative(init);
        lemma_built_stride_and_offsets(init);
        assert(decls.take(decls.len() - 1) =~= init);
        assert forall|i: int| 0 <= i < decls.len() implies #[trigger] built(decls).elements[i]
            == decls[i].at(total_size(decls.take(i))) by {
            if i < init.len() {
                assert(init.take(i) =~= decls.take(i));
            }
        }
        assert forall|i: int| 0 <= i < decls.len() implies (#[trigger] built(
            decls,
        ).elements[i]).byte_offset == total_size(decls.take(i)) by {
            lemma_total_size_grows(decls, i);
            lemma_total_size_nonnegative(decls.take(i));
        }
    }
}

/// Sizes are unsigned, so their sum is not negative.
pub proof fn lemma_total_size_nonnegative(decls: Seq<ElementDecl>)
    ensures
        total_size(decls) >= 0,
    decreases decls.len(),
{
    if decls.len() > 0 {
        lemma_total_size_nonnegative(decls.drop_last());
    }
}

/// The declarations at the beginning of a list take no more bytes than the
/// whole list.
pub proof fn lemma_total_size_grows(decls: Seq<ElementDecl>, n: int)
    requires
        0 <= n <= decls.len(),
    ensures
        total_size(decls.take(n)) <= total_size(decls),
    decreases decls.len() - n,
{
    if n < decls.len() {
        assert(decls.take(n + 1).drop_last() =~= decls.take(n));
        lemma_total_size_grows(decls, n + 1);
    } else {
        assert(decls.take(n) =~= decls);
    }
}

/// Sizes are unsigned, so the bytes of steps are not negative, and the
/// steps at the beginning of a list add no more bytes than the whole list.
pub proof fn lemma_steps_size_grows(steps: Seq<BuildStep>, n: int)
    requires
        0 <= n <= steps.len(),
    ensures
        0 <= steps_size(steps.take(n)) <= steps_size(steps),
    decreases steps.len(),
{
    if steps.len() == 0 {
        assert(steps.take(n) =~= steps);
    } else if n == steps.len() {
        assert(steps.take(n) =~= steps);
        lemma_steps_size_grows(steps.drop_last(), n - 1);
    } else {
        assert(steps.drop_last().take(n) =~= steps.take(n));
        lemma_steps_size_grows(steps.drop_last(), n);
    }
}

/// An attribute among the steps has fewer attributes before it than the
/// steps have in all.
pub proof fn lemma_attributes_before(steps: Seq<BuildStep>, i: int)
    requires
        0 <= i < steps.len(),
        steps[i] is Attribute,
    ensures
        0 <= attributes(steps.take(i)) < attributes(steps),
    decreases steps.len(),
{
    lemma_attributes_nonnegative(steps.take(i));
    if i == steps.len() - 1 {
        assert(steps.take(i) =~= steps.drop_last());
    } else {
        assert(steps.drop_last().take(i) =~= steps.take(i));
        lemma_attributes_before(steps.drop_last(), i);
    }
}

/// A list of steps has no fewer than no attributes.
pub proof fn lemma_attributes_nonnegative(steps: Seq<BuildStep>)
    ensures
        attributes(steps) >= 0,
    decreases steps.len(),
{
    if steps.len() > 0 {
        lemma_attributes_nonnegative(steps.drop_last());
    }
}

/// Whatever the steps by which a format is built, attributes and padding in
/// any order: its stride is the sum of the sizes of all steps, it holds one
/// element for each attribute, in order, and each attribute lies at the sum
/// of the sizes of the steps before it, which is the stride accumulated
/// strictly before the attribute was added.
pub proof fn lemma_laid_out_stride_and_offsets(steps: Seq<BuildStep>)
    requires
        steps_size(steps) <= u32::MAX,
    ensures
        laid_out(steps).stride == steps_size(steps),
        laid_out(steps).elements.len() == attributes(steps),
        forall|i: int|
            0 <= i < steps.len() && #[trigger] steps[i] is Attribute ==> {
                let element = laid_out(steps).elements[attributes(steps.take(i))];
                &&& element == steps[i]->Attribute_0.at(steps_size(steps.take(i)))
                &&& element.byte_offset == steps_size(steps.take(i))
            },
    decreases steps.len(),
{
    if steps.len() > 0 {
        let init = steps.drop_last();
        let last = steps.len() - 1;
        assert(init.take(last) =~= init);
        assert(steps.take(last) =~= init);
        lemma_steps_size_grows(init, last);
        lemma_laid_out_stride_and_offsets(init);
        lemma_attributes_nonnegative(init);
        let before = laid_out(init);
        assert forall|i: int| 0 <= i < steps.len() && #[trigger] steps[i] is Attribute implies {
            let element = laid_out(steps).elements[attributes(steps.take(i))];
            &&& element == steps[i]->Attribute_0.at(steps_size(steps.take(i)))
            &&& element.byte_offset == steps_size(steps.take(i))
        } by {
            lemma_steps_size_grows(steps, i);
            let rank = attributes(steps.take(i));
            if i < last {
                assert(init.take(i) =~= steps.take(i));
                assert(init[i] == steps[i]);
                lemma_attributes_before(init, i);
                assert(0 <= rank < before.elements.len());
                assert(laid_out(steps).elements[rank] == before.elements[rank]);
            } else {
                assert(rank == before.elements.len());
                assert(laid_out(steps).elements == before.elements.push(
                    steps[i]->Attribute_0.at(before.stride),
                ));
            }
        }
    }
}

/// Common vertex format containing position + color.
#[derive(Debug, Copy, Clone, PartialEq)]
pub struct VertPosColor {
    pub pos: Point3F,
    pub color: Color4,
}

impl VertPosColor {
    /// The attributes of the vertex: position and colour, 16 bytes in all.
    pub open spec fn decls() -> Seq<ElementDecl> {
        seq![
            ElementDecl {
                format: FormatType::R32G32B32Float,
                size_bytes: 12,
                semantic: SemanticType::Position,
                semantic_index: 0,
                input_slot: 0,
                slot_class: InputClass::PerVertex,
                instance_step_rate: 0,
            },
            ElementDecl {
                format: FormatType::R8G8B8A8UNorm,
                size_bytes: 4,
                semantic: SemanticType::TexCoord,
                semantic_index: 0,
                input_slot: 0,
                slot_class: InputClass::PerVertex,
                instance_step_rate: 0,
            },
        ]
    }

    /// Gets the vertex format for this vertex type.
    pub fn get_format() -> (f: VertexFormat)
        ensures
            fresh_format(f, VertPosColor::decls()),
            f.stride == 16,
    {
        proof {
            reveal_with_fuel(built, 3);
        }
        let f = VertexFormat::new().add_new_element(
            FormatType::R32G32B32Float,
            12,
            SemanticType::Position,
            0,
            0,
            InputClass::PerVertex,
            0,
        ).add_new_element(
            FormatType::R8G8B8A8UNorm,
            4,
            SemanticType::TexCoord,
            0,
            0,
            InputClass::PerVertex,
            0,
        );
        assert(f@.elements =~= built(VertPosColor::decls()).elements);
        f
    }
}

impl Default for VertPosColor {
    /// The vertex at the origin, white.
    fn default() -> (v: VertPosColor)
        ensures
            v == (VertPosColor {
                pos: Point3F { x: ZERO, y: ZERO, z: ZERO },
                color: Color4T { r: 255u8, g: 255u8, b: 255u8, a: 255u8 },
            }),
    {
        VertPosColor {
            pos: Point3F { x: ZERO, y: ZERO, z: ZERO },
            color: Color4T { r: 255u8, g: 255u8, b: 255u8, a: 255u8 },
        }
    }
}

/// Common vertex format containing position, normal, texture coordinates
/// and color.
#[derive(Debug, Copy, Clone, PartialEq)]
pub struct VertPosNormUVColor {
    pub pos: Point3F,
    pub norm: Vector3F,
    pub uv: Vector2F,
    pub color: Color4,
}

impl VertPosNormUVColor {
    /// The attributes of the vertex: position, normal, texture coordinates
    /// and colour, 36 bytes in all.
    pub open spec fn decls() -> Seq<ElementDecl> {
        seq![
            ElementDecl {
                format: FormatType::R32G32B32Float,
                size_bytes: 12,
                semantic: SemanticType::Position,
                semantic_index: 0,
                input_slot: 0,
                slot_class: InputClass::PerVertex,
                instance_step_rate: 0,
            },
            ElementDecl {
                format: FormatType::R32G32B32Float,
                size_bytes: 12,
                semantic: SemanticType::Normal,
                semantic_index: 0,
                input_slot: 0,
                slot_class: InputClass::PerVertex,
                instance_step_rate: 0,
            },
            ElementDecl {
                format: FormatType::R32G32Float,
                size_bytes: 8,
                semantic: SemanticType::TexCoord,
                semantic_index: 0,
                input_slot: 0,
                slot_class: InputClass::PerVertex,
                instance_step_rate: 0,
            },
            ElementDecl {
                format: FormatType::R8G8B8A8UNorm,
                size_bytes: 4,
                semantic: SemanticType::TexCoord,
                semantic_index: 1,
                input_slot: 0,
                slot_class: InputClass::PerVertex,
                instance_step_rate: 0,
            },
        ]
    }

    /// Gets the vertex format for this vertex type.
    pub fn get_format() -> (f: VertexFormat)
        ensures
            fresh_format(f, VertPosNormUVColor::decls()),
            f.stride == 36,
    {
        proof {
            reveal_with_fuel(built, 5);
        }
        let f = VertexFormat::new().add_new_element(
            FormatType::R32G32B32Float,
            12,
            SemanticType::Position,
            0,
            0,
            InputClass::PerVertex,
            0,
        ).add_new_element(
            FormatType::R32G32B32Float,
            12,
            SemanticType::Normal,
            0,
            0,
            InputClass::PerVertex,
            0,
        ).add_new_element(
            FormatType::R32G32Float,
            8,
            SemanticType::TexCoord,
            0,
            0,
            InputClass::PerVertex,
            0,
        ).add_new_element(
            FormatType::R8G8B8A8UNorm,
            4,
            SemanticType::TexCoord,
            1,
            0,
            InputClass::PerVertex,
            0,
        );
        assert(f@.elements =~= built(VertPosNormUVColor::decls()).elements);
        f
    }
}

impl Default for VertPosNormUVColor {
    /// The vertex at the origin, with no direction, white.
    fn default() -> (v: VertPosNormUVColor)
        ensures
            v == (VertPosNormUVColor {
                pos: Point3F { x: ZERO, y: ZERO, z: ZERO },
                norm: Vector3F { x: ZERO, y: ZERO, z: ZERO },
                uv: Vector2F { x: ZERO, y: ZERO },
                color: Color4T { r: 255u8, g: 255u8, b: 255u8, a: 255u8 },
            }),
    {
        VertPosNormUVColor {
            pos: Point3F { x: ZERO, y: ZERO, z: ZERO },
            norm: Vector3F { x: ZERO, y: ZERO, z: ZERO },
            uv: Vector2F { x: ZERO, y: ZERO },
            color: Color4T { r: 255u8, g: 255u8, b: 255u8, a: 255u8 },
        }
    }
}

} // verus!
