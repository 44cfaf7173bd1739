use vstd::prelude::*;

use crate::id::Id;

verus! {

/// Buffer usage bit: the buffer can be mapped for reading.
pub const MAP_READ: u32 = 0x1;
/// Buffer usage bit: the buffer can be mapped for writing.
pub const MAP_WRITE: u32 = 0x2;
/// Buffer usage bit: the buffer can be a copy source.
pub const COPY_SRC: u32 = 0x4;
/// Buffer usage bit: the buffer can be a copy destination.
pub const COPY_DST: u32 = 0x8;
/// Buffer usage bit: the buffer can be bound as a uniform buffer.
pub const UNIFORM: u32 = 0x40;
/// Buffer usage bit: the buffer can be bound as a storage buffer.
pub const STORAGE: u32 = 0x80;
/// Every defined buffer usage bit.
pub const ALL_BUFFER_USAGES: u32 = 0x3ff;
/// Alignment, in bytes, of buffer sizes and copy ranges.
pub const COPY_BUFFER_ALIGNMENT: u64 = 4;
/// Alignment, in bytes, of the offset of a mapped range.
pub const MAP_ALIGNMENT: u64 = 8;

/// Whether `usage` holds only defined buffer usage bits.
pub open spec fn usage_bits_known(usage: u32) -> bool {
    usage & !ALL_BUFFER_USAGES == 0
}

/// Whether `usage` holds the bit (or any of the bits) `bit`.
pub open spec fn has_usage(usage: u32, bit: u32) -> bool {
    usage & bit != 0
}

/// Whether `usage` has only known bits, as a buffer usage set built from
/// raw bits would check.
pub fn buffer_usages_from_bits(usage: u32) -> (r: Option<u32>)
    ensures
        r == (if usage_bits_known(usage) {
            Some(usage)
        } else {
            None
        }),
{
    if usage & !ALL_BUFFER_USAGES == 0 {
        Some(usage)
    } else {
        None
    }
}

/// An error about a device.
#[derive(Clone, Copy, Debug, PartialEq, Eq, Structural)]
pub enum DeviceError {
    /// The device identifier names no device.
    Invalid,
}

/// Why a buffer could not be created.
#[derive(Clone, Copy, Debug, PartialEq, Eq, Structural)]
pub enum CreateBufferError {
    Device(DeviceError),
    /// The usage bitmask is empty or holds undefined bits.
    InvalidUsage(u32),
    /// A mappable buffer asks for usages that mapping does not allow.
    UsageMismatch(u32),
    /// A buffer mapped at creation has a size that is not a multiple of four.
    UnalignedSize(u64),
}

/// How a buffer is mapped into host memory.
#[derive(Clone, Copy, Debug, PartialEq, Eq, Structural)]
pub enum HostMap {
    Read,
    Write,
}

/// The mapping state of a buffer.
#[derive(Clone, Copy, Debug, PartialEq, Eq, Structural)]
pub enum MapState {
    /// Not mapped.
    Idle,
    /// Mapped whole for writing since creation.
    Init,
    /// A mapping of the range was asked for and waits for the device.
    Waiting { host: HostMap, offset: u64, size: u64 },
    /// The range is mapped.
    Active { host: HostMap, offset: u64, size: u64 },
}

/// Why an access to a buffer failed.
#[derive(Clone, Copy, Debug, PartialEq, Eq, Structural)]
pub enum BufferAccessError {
    /// The identifier names no buffer.
    Invalid,
    /// The buffer failed validation when it was created, for this cause.
    Errored(CreateBufferError),
    /// The buffer lacks the usage bit that the access needs.
    MissingUsage(u32),
    /// The buffer is mapped already.
    AlreadyMapped,
    /// A mapping of the buffer is already pending.
    MapAlreadyPending,
    /// The buffer is not mapped.
    NotMapped,
    /// The offset is not a multiple of eight.
    UnalignedOffset(u64),
    /// The size is not a multiple of four.
    UnalignedRangeSize(u64),
    /// The range starts before the mapped range.
    OutOfBoundsUnderrun { index: u64, min: u64 },
    /// The range ends after the mapped range or the buffer.
    OutOfBoundsOverrun { index: u64, max: u64 },
}

/// What a buffer is asked to be.
pub struct BufferDescriptor {
    pub label: String,
    pub size: u64,
    pub usage: u32,
    pub mapped_at_creation: bool,
}

/// A valid buffer.
pub struct BufferRecord {
    pub device: Id,
    pub label: String,
    pub size: u64,
    pub usage: u32,
    pub map_state: MapState,
}

/// A range of a buffer that is mapped into host memory.
#[derive(Clone, Copy, Debug, PartialEq, Eq, Structural)]
pub struct MappedRange {
    pub offset: u64,
    pub size: u64,
}

/// The error, if any, of validating a buffer descriptor on its own.
pub open spec fn buffer_desc_error(size: u64, usage: u32, mapped_at_creation: bool) -> Option<
    CreateBufferError,
> {
    if !usage_bits_known(usage) || usage == 0 {
        Some(CreateBufferError::InvalidUsage(usage))
    } else if (has_usage(usage, MAP_READ) && usage & !(MAP_READ | COPY_DST) != 0) || (has_usage(
        usage,
        MAP_WRITE,
    ) && usage & !(MAP_WRITE | COPY_SRC) != 0) {
        Some(CreateBufferError::UsageMismatch(usage))
    } else if mapped_at_creation && size % COPY_BUFFER_ALIGNMENT != 0 {
        Some(CreateBufferError::UnalignedSize(size))
    } else {
        None
    }
}

/// Validate a buffer descriptor on its own.
pub fn validate_buffer_desc(size: u64, usage: u32, mapped_at_creation: bool) -> (r: Option<
    CreateBufferError,
>)
    ensures
        r == buffer_desc_error(size, usage, mapped_at_creation),
{
    if usage & !ALL_BUFFER_USAGES != 0 || usage == 0 {
        Some(CreateBufferError::InvalidUsage(usage))
    } else if (usage & MAP_READ != 0 && usage & !(MAP_READ | COPY_DST) != 0) || (usage & MAP_WRITE
        != 0 && usage & !(MAP_WRITE | COPY_SRC) != 0) {
        Some(CreateBufferError::UsageMismatch(usage))
    } else if mapped_at_creation && size % COPY_BUFFER_ALIGNMENT != 0 {
        Some(CreateBufferError::UnalignedSize(size))
    } else {
        None
    }
}

/// Filtering of a texture sample.
#[derive(Clone, Copy, Debug, PartialEq, Eq, Structural)]
pub enum FilterMode {
    Nearest,
    Linear,
}

/// How texture coordinates outside the texture are treated.
#[derive(Clone, Copy, Debug, PartialEq, Eq, Structural)]
pub enum AddressMode {
    ClampToEdge,
    Repeat,
    MirrorRepeat,
    ClampToBorder,
}

/// Comparison of a sampled depth value against a reference.
#[derive(Clone, Copy, Debug, PartialEq, Eq, Structural)]
pub enum CompareFunction {
    Never,
    Less,
    Equal,
    LessEqual,
    Greater,
    NotEqual,
    GreaterEqual,
    Always,
}

/// What a sampler is asked to be. Level-of-detail clamps are checked by
/// the caller before it gets here.
pub struct SamplerDescriptor {
    pub label: String,
    pub address_mode_u: AddressMode,
    pub address_mode_v: AddressMode,
    pub address_mode_w: AddressMode,
    pub mag_filter: FilterMode,
    pub min_filter: FilterMode,
    pub mipmap_filter: FilterMode,
    pub compare: Option<CompareFunction>,
    pub anisotropy_clamp: u16,
}

/// Why a sampler could not be created.
#[derive(Clone, Copy, Debug, PartialEq, Eq, Structural)]
pub enum CreateSamplerError {
    Device(DeviceError),
    /// The anisotropy clamp is outside `1..=16`.
    InvalidAnisotropy(u16),
    /// Anisotropic filtering was asked for with a filter that is not linear.
    InvalidFilterModeWithAnisotropy,
}

/// A valid sampler.
pub struct SamplerRecord {
    pub device: Id,
    pub label: String,
    pub address_mode_u: AddressMode,
    pub address_mode_v: AddressMode,
    pub address_mode_w: AddressMode,
    pub mag_filter: FilterMode,
    pub min_filter: FilterMode,
    pub mipmap_filter: FilterMode,
    pub compare: Option<CompareFunction>,
    pub anisotropy_clamp: u16,
}

/// The error, if any, of validating a sampler's filters and anisotropy.
pub open spec fn sampler_desc_error(
    anisotropy_clamp: u16,
    mag: FilterMode,
    min: FilterMode,
    mipmap: FilterMode,
) -> Option<CreateSamplerError> {
    if anisotropy_clamp < 1 || anisotropy_clamp > 16 {
        Some(CreateSamplerError::InvalidAnisotropy(anisotropy_clamp))
    } else if anisotropy_clamp != 1 && !(mag == FilterMode::Linear && min == FilterMode::Linear
        && mipmap == FilterMode::Linear) {
        Some(CreateSamplerError::InvalidFilterModeWithAnisotropy)
    } else {
        None
    }
}

/// Validate a sampler descriptor on its own.
pub fn validate_sampler_desc(desc: &SamplerDescriptor) -> (r: Option<CreateSamplerError>)
    ensures
        r == sampler_desc_error(
            desc.anisotropy_clamp,
            desc.mag_filter,
            desc.min_filter,
            desc.mipmap_filter,
        ),
{
    if desc.anisotropy_clamp < 1 || desc.anisotropy_clamp > 16 {
        Some(CreateSamplerError::InvalidAnisotropy(desc.anisotropy_clamp))
    } else if desc.anisotropy_clamp != 1 && !(desc.mag_filter == FilterMode::Linear
        && desc.min_filter == FilterMode::Linear && desc.mipmap_filter == FilterMode::Linear) {
        Some(CreateSamplerError::InvalidFilterModeWithAnisotropy)
    } else {
        None
    }
}

/// One entry of a bind group: a buffer bound at a binding number.
#[derive(Clone, Copy, Debug, PartialEq, Eq, Structural)]
pub struct BindGroupEntry {
    pub binding: u32,
    pub buffer: Id,
}

/// What a bind group is asked to be.
pub struct BindGroupDescriptor {
    pub label: String,
    pub entries: Vec<BindGroupEntry>,
}

/// Why a bind group could not be created.
#[derive(Clone, Copy, Debug, PartialEq, Eq, Structural)]
pub enum CreateBindGroupError {
    Device(DeviceError),
    /// Two entries share a binding number.
    DuplicateBinding(u32),
    /// The buffer of an entry names no buffer, or one of another device.
    InvalidBuffer(Id),
    /// The buffer of an entry failed validation when it was created.
    ErroredBuffer(Id, CreateBufferError),
    /// The buffer of an entry can be bound neither as uniform nor as storage.
    MissingBufferUsage(Id),
}

/// A valid bind group.
pub struct BindGroupRecord {
    pub device: Id,
    pub label: String,
    pub entries: Vec<BindGroupEntry>,
}

/// Texture usage bit: the texture can be a copy source.
pub const TEXTURE_COPY_SRC: u32 = 0x1;
/// Texture usage bit: the texture can be a copy destination.
pub const TEXTURE_COPY_DST: u32 = 0x2;
/// Texture usage bit: the texture can be bound for sampling.
pub const TEXTURE_BINDING: u32 = 0x4;
/// Texture usage bit: the texture can be bound as storage.
pub const STORAGE_BINDING: u32 = 0x8;
/// Texture usage bit: the texture can be rendered to.
pub const RENDER_ATTACHMENT: u32 = 0x10;
/// Every defined texture usage bit.
pub const ALL_TEXTURE_USAGES: u32 = 0x1f;

/// What a texture is asked to be.
pub struct TextureDescriptor {
    pub label: String,
    pub width: u32,
    pub height: u32,
    pub depth_or_array_layers: u32,
    pub mip_level_count: u32,
    pub sample_count: u32,
    pub usage: u32,
}

/// Why a texture could not be created.
#[derive(Clone, Copy, Debug, PartialEq, Eq, Structural)]
pub enum CreateTextureError {
    Device(DeviceError),
    /// The usage bitmask is empty or holds undefined bits.
    InvalidUsage(u32),
    /// A dimension of the texture is zero.
    ZeroDimension,
    /// The texture has no mip level.
    InvalidMipLevelCount(u32),
    /// The sample count is neither one nor four.
    InvalidSampleCount(u32),
    /// A multisampled texture has more than one mip level.
    MultisampledMipLevels(u32),
}

/// A valid texture.
pub struct TextureRecord {
    pub device: Id,
    pub label: String,
    pub width: u32,
    pub height: u32,
    pub depth_or_array_layers: u32,
    pub mip_level_count: u32,
    pub sample_count: u32,
    pub usage: u32,
}

/// The error, if any, of validating a texture descriptor on its own.
pub open spec fn texture_desc_error(desc: TextureDescriptor) -> Option<CreateTextureError> {
    if desc.usage == 0 || desc.usage & !ALL_TEXTURE_USAGES != 0 {
        Some(CreateTextureError::InvalidUsage(desc.usage))
    } else if desc.width == 0 || desc.height == 0 || desc.depth_or_array_layers == 0 {
        Some(CreateTextureError::ZeroDimension)
    } else if desc.mip_level_count == 0 {
        Some(CreateTextureError::InvalidMipLevelCount(0))
    } else if desc.sample_count != 1 && desc.sample_count != 4 {
        Some(CreateTextureError::InvalidSampleCount(desc.sample_count))
    } else if desc.sample_count == 4 && desc.mip_level_count != 1 {
        Some(CreateTextureError::MultisampledMipLevels(desc.mip_level_count))
    } else {
        None
    }
}

/// Validate a texture descriptor on its own.
pub fn validate_texture_desc(desc: &TextureDescriptor) -> (r: Option<CreateTextureError>)
    ensures
        r == texture_desc_error(*desc),
{
    if desc.usage == 0 || desc.usage & !ALL_TEXTURE_USAGES != 0 {
        Some(CreateTextureError::InvalidUsage(desc.usage))
    } else if desc.width == 0 || desc.height == 0 || desc.depth_or_array_layers == 0 {
        Some(CreateTextureError::ZeroDimension)
    } else if desc.mip_level_count == 0 {
        Some(CreateTextureError::InvalidMipLevelCount(0))
    } else if desc.sample_count != 1 && desc.sample_count != 4 {
        Some(CreateTextureError::InvalidSampleCount(desc.sample_count))
    } else if desc.sample_count == 4 && desc.mip_level_count != 1 {
        Some(CreateTextureError::MultisampledMipLevels(desc.mip_level_count))
    } else {
        None
    }
}

/// A valid device.
pub struct DeviceRecord {
    pub label: String,
}

} // verus!
