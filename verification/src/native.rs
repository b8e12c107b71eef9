//! The vocabulary shared with the host: status codes, replies of the device,
//! the numeric codes of the native interface, and the error types.
use vstd::prelude::*;

verus! {

/// The status with which a native call reports success.
pub const S_OK: i32 = 0;

// Resource usage.
pub const USAGE_DEFAULT: u32 = 0;
pub const USAGE_IMMUTABLE: u32 = 1;
pub const USAGE_DYNAMIC: u32 = 2;

// Pipeline stages a resource may be bound to.
pub const BIND_VERTEX_BUFFER: u32 = 0x1;
pub const BIND_INDEX_BUFFER: u32 = 0x2;
pub const BIND_CONSTANT_BUFFER: u32 = 0x4;
pub const BIND_SHADER_RESOURCE: u32 = 0x8;
pub const BIND_RENDER_TARGET: u32 = 0x20;
pub const BIND_DEPTH_STENCIL: u32 = 0x40;

pub const CPU_ACCESS_WRITE: u32 = 0x10000;
pub const RESOURCE_MISC_GENERATE_MIPS: u32 = 0x1;

pub const CLEAR_DEPTH: u32 = 0x1;
pub const CLEAR_STENCIL: u32 = 0x2;

pub const MAP_WRITE_DISCARD: u32 = 4;

// Device creation.
pub const CREATE_DEVICE_DEBUG: u32 = 0x2;
pub const FEATURE_LEVEL_11_0: u32 = 0xb000;
pub const SDK_VERSION: u32 = 7;

// Severities of diagnostic messages.
pub const MESSAGE_SEVERITY_CORRUPTION: u32 = 0;
pub const MESSAGE_SEVERITY_ERROR: u32 = 1;
pub const MESSAGE_SEVERITY_WARNING: u32 = 2;

// Swap chains.
pub const USAGE_RENDER_TARGET_OUTPUT: u32 = 0x20;
pub const USAGE_BACK_BUFFER: u32 = 0x40;
pub const SWAP_EFFECT_DISCARD: u32 = 0;

/// The shader compiler's highest optimisation level.
pub const COMPILE_OPTIMIZATION_LEVEL3: u32 = 0x8000;

// Pixel and vertex attribute formats.
pub const FORMAT_R32G32B32A32_FLOAT: u32 = 2;
pub const FORMAT_R32G32B32_FLOAT: u32 = 6;
pub const FORMAT_R16G16B16A16_FLOAT: u32 = 10;
pub const FORMAT_R16G16B16A16_UNORM: u32 = 11;
pub const FORMAT_R16G16B16A16_SNORM: u32 = 13;
pub const FORMAT_R32G32_FLOAT: u32 = 16;
pub const FORMAT_R8G8B8A8_UNORM: u32 = 28;
pub const FORMAT_R8G8B8A8_UNORM_SRGB: u32 = 29;
pub const FORMAT_R8G8B8A8_SNORM: u32 = 31;
pub const FORMAT_R16G16_FLOAT: u32 = 34;
pub const FORMAT_R16G16_UNORM: u32 = 35;
pub const FORMAT_R16G16_SNORM: u32 = 37;
pub const FORMAT_D32_FLOAT: u32 = 40;
pub const FORMAT_R32_FLOAT: u32 = 41;
pub const FORMAT_R32_UINT: u32 = 42;
pub const FORMAT_D24_UNORM_S8_UINT: u32 = 45;
pub const FORMAT_R8G8_UNORM: u32 = 49;
pub const FORMAT_R8G8_SNORM: u32 = 51;
pub const FORMAT_R16_FLOAT: u32 = 54;
pub const FORMAT_D16_UNORM: u32 = 55;
pub const FORMAT_R16_UNORM: u32 = 56;
pub const FORMAT_R16_SNORM: u32 = 58;
pub const FORMAT_R8_UNORM: u32 = 61;
pub const FORMAT_R8_SNORM: u32 = 63;

/// What the device returned from a call that hands out one object: the
/// status of the call and the object's address.
#[derive(Debug, Copy, Clone, PartialEq, Eq, Structural)]
pub struct NativeReply {
    pub status: i32,
    pub object: u64,
}

impl NativeReply {
    /// A call succeeded exactly if its status is `S_OK`.
    pub open spec fn succeeded(self) -> bool {
        self.status == S_OK
    }

    pub fn is_ok(&self) -> (ok: bool)
        ensures
            ok == self.succeeded(),
    {
        self.status == S_OK
    }
}

/// How the initial data of a resource is laid out: the bytes from one row to
/// the next, and from one slice to the next.
#[derive(Debug, Copy, Clone, PartialEq, Eq, Structural)]
pub struct InitData {
    pub pitch: u32,
    pub slice_pitch: u32,
}

/// The description of a buffer, as the device takes it.
#[derive(Debug, Copy, Clone, PartialEq, Eq, Structural)]
pub struct BufferDesc {
    pub byte_width: u32,
    pub usage: u32,
    pub bind_flags: u32,
    pub cpu_access_flags: u32,
    pub misc_flags: u32,
    pub structure_byte_stride: u32,
}

/// What is asked of the device to create a buffer; `init` is absent where
/// the buffer starts without contents.
#[derive(Debug, Copy, Clone, PartialEq, Eq, Structural)]
pub struct BufferRequest {
    pub desc: BufferDesc,
    pub init: Option<InitData>,
}

/// Empties a handle. The object it referred to, if any, is handed to the
/// caller, who owes the device exactly one release of it; the handle is null
/// afterwards, so a second call hands out nothing.
pub fn take_handle(handle: &mut u64) -> (released: Option<u64>)
    ensures
        *old(handle) != 0 ==> released == Some(*old(handle)),
        *old(handle) == 0 ==> released is None,
        *final(handle) == 0,
{
    let object: u64 = *handle;
    *handle = 0;
    if object != 0 {
        Some(object)
    } else {
        None
    }
}

/// The objects of a list that are not null, in order: those that are still
/// to be released.
pub open spec fn held(objects: Seq<u64>) -> Seq<u64>
    decreases objects.len(),
{
    if objects.len() == 0 {
        Seq::empty()
    } else if objects.last() == 0 {
        held(objects.drop_last())
    } else {
        held(objects.drop_last()).push(objects.last())
    }
}

/// Of a single object, the object itself is held unless it is null.
pub proof fn lemma_held_one(object: u64)
    ensures
        object != 0 ==> held(seq![object]) == seq![object],
        object == 0 ==> held(seq![object]) == Seq::<u64>::empty(),
{
    reveal_with_fuel(held, 2);
    assert(seq![object].drop_last() =~= Seq::<u64>::empty());
    assert(Seq::<u64>::empty().push(object) =~= seq![object]);
}

/// Appends `object`, the element of `all` at `index`, to the objects held
/// among the elements before it, unless it is null.
pub(crate) fn push_held(
    released: &mut Vec<u64>,
    object: u64,
    Ghost(all): Ghost<Seq<u64>>,
    Ghost(index): Ghost<int>,
)
    requires
        0 <= index < all.len(),
        all[index] == object,
        old(released)@ == held(all.take(index)),
    ensures
        final(released)@ == held(all.take(index + 1)),
{
    assert(all.take(index + 1).drop_last() =~= all.take(index));
    if object != 0 {
        released.push(object);
    }
}

/// The link of the device and surface chain at which start-up failed.
#[derive(Debug, Copy, Clone, PartialEq, Eq, Structural)]
pub enum DeviceStage {
    Device,
    DxgiDevice,
    Adapter,
    Factory,
    SwapChain,
}

/// The device, or a link between it and the presentation surface, could not
/// be had.
#[derive(Debug, Copy, Clone, PartialEq, Eq, Structural)]
pub struct DeviceError {
    pub stage: DeviceStage,
    pub status: i32,
}

/// The shader compiler refused a source; `diagnostics` is what it printed.
#[derive(Debug, Clone, PartialEq, Eq)]
pub struct CompileError {
    pub status: i32,
    pub diagnostics: String,
}

/// A resource could not be created.
#[derive(Debug, Clone, PartialEq, Eq)]
pub enum ResourceError {
    /// A buffer was to be made from an empty list.
    EmptyInput,
    /// An allocation of zero bytes was asked for.
    ZeroSize,
    /// The data handed over does not have the length its description implies.
    SizeMismatch,
    /// A size does not fit the native 32-bit field.
    TooLarge,
    /// A vertex attribute has no native format or semantic.
    InvalidFormat,
    /// A draw range or material index points outside its model.
    InvalidDraw,
    /// An image file could not be decoded.
    Decode,
    /// A shader did not compile.
    Compile(CompileError),
    /// The device refused the call with this status.
    Rejected(i32),
}

} // verus!
