//! The sampler configuration document and its translation into sampler state.
use vstd::prelude::*;

verus! {

/// The file extension of a sampler configuration document.
pub const IMG_CFG_EXTENSION: &'static str = "img_cfg";

/// How a texel is chosen between sample points.
#[derive(Copy, Clone, Debug, PartialEq, Eq, Structural)]
pub enum FilterMode {
    Nearest,
    Linear,
}

impl Default for FilterMode {
    fn default() -> (r: FilterMode)
        ensures
            r == FilterMode::Nearest,
    {
        FilterMode::Nearest
    }
}

/// How texture coordinates outside the unit range are wrapped.
#[derive(Copy, Clone, Debug, PartialEq, Eq, Structural)]
pub enum AddressMode {
    ClampToEdge,
    Repeat,
    MirrorRepeat,
    ClampToBorder,
}

impl Default for AddressMode {
    fn default() -> (r: AddressMode)
        ensures
            r == AddressMode::ClampToEdge,
    {
        AddressMode::ClampToEdge
    }
}

/// The depth comparison of a comparison sampler.
#[derive(Copy, Clone, Debug, PartialEq, Eq, Structural)]
pub enum CompareFunction {
    Never,
    Less,
    Equal,
    LessEqual,
    Greater,
    NotEqual,
    GreaterEqual,
    Always,
}

impl Default for CompareFunction {
    fn default() -> (r: CompareFunction)
        ensures
            r == CompareFunction::Never,
    {
        CompareFunction::Never
    }
}

/// The colour sampled outside the texture when an address mode clamps to the border.
#[derive(Copy, Clone, Debug, PartialEq, Eq, Structural)]
pub enum SamplerBorderColor {
    TransparentBlack,
    OpaqueBlack,
    OpaqueWhite,
    Zero,
}

/// One parsed configuration document. The level-of-detail clamps are held as the bit
/// patterns of their 32-bit floating-point values, which pass through unchanged.
#[derive(Copy, Clone, Debug, PartialEq, Eq, Structural)]
pub struct ImageSamplerConfig {
    pub address_mode_u: AddressMode,
    pub address_mode_v: AddressMode,
    pub address_mode_w: AddressMode,
    pub mag_filter: FilterMode,
    pub min_filter: FilterMode,
    pub mipmap_filter: FilterMode,
    pub lod_min_clamp_bits: u32,
    pub lod_max_clamp_bits: u32,
    pub compare: Option<CompareFunction>,
    pub anisotropy_clamp: Option<u8>,
    pub border_color: Option<SamplerBorderColor>,
}

/// The sampling parameters that a configuration document sets on an image.
#[derive(Copy, Clone, Debug, PartialEq, Eq, Structural)]
pub struct SamplerDescriptor {
    pub address_mode_u: AddressMode,
    pub address_mode_v: AddressMode,
    pub address_mode_w: AddressMode,
    pub mag_filter: FilterMode,
    pub min_filter: FilterMode,
    pub mipmap_filter: FilterMode,
    pub lod_min_clamp_bits: u32,
    pub lod_max_clamp_bits: u32,
    pub compare: Option<CompareFunction>,
    pub anisotropy_clamp: Option<u8>,
    pub border_color: Option<SamplerBorderColor>,
}

/// An image's sampler state: the host's default, or one set from a descriptor.
#[derive(Copy, Clone, Debug, PartialEq, Eq, Structural)]
pub enum ImageSampler {
    Default,
    Descriptor(SamplerDescriptor),
}

/// The documented default of every field: clamp to edge, nearest filtering, zero clamps,
/// no comparison, no anisotropy, no border colour.
pub open spec fn default_config() -> ImageSamplerConfig {
    ImageSamplerConfig {
        address_mode_u: AddressMode::ClampToEdge,
        address_mode_v: AddressMode::ClampToEdge,
        address_mode_w: AddressMode::ClampToEdge,
        mag_filter: FilterMode::Nearest,
        min_filter: FilterMode::Nearest,
        mipmap_filter: FilterMode::Nearest,
        lod_min_clamp_bits: 0,
        lod_max_clamp_bits: 0,
        compare: None,
        anisotropy_clamp: None,
        border_color: None,
    }
}

impl Default for ImageSamplerConfig {
    /// The document with every field omitted.
    fn default() -> (r: ImageSamplerConfig)
        ensures
            r == default_config(),
    {
        ImageSamplerConfig {
            address_mode_u: AddressMode::ClampToEdge,
            address_mode_v: AddressMode::ClampToEdge,
            address_mode_w: AddressMode::ClampToEdge,
            mag_filter: FilterMode::Nearest,
            min_filter: FilterMode::Nearest,
            mipmap_filter: FilterMode::Nearest,
            lod_min_clamp_bits: 0,
            lod_max_clamp_bits: 0,
            compare: None,
            anisotropy_clamp: None,
            border_color: None,
        }
    }
}

impl ImageSamplerConfig {
    /// Each field of the document carried onto the descriptor field of the same name.
    pub open spec fn descriptor(&self) -> SamplerDescriptor {
        SamplerDescriptor {
            address_mode_u: self.address_mode_u,
            address_mode_v: self.address_mode_v,
            address_mode_w: self.address_mode_w,
            mag_filter: self.mag_filter,
            min_filter: self.min_filter,
            mipmap_filter: self.mipmap_filter,
            lod_min_clamp_bits: self.lod_min_clamp_bits,
            lod_max_clamp_bits: self.lod_max_clamp_bits,
            compare: self.compare,
            anisotropy_clamp: self.anisotropy_clamp,
            border_color: self.border_color,
        }
    }

    /// The sampler state that this document gives an image.
    pub fn get_sampler_descriptor(&self) -> (r: ImageSampler)
        ensures
            r == ImageSampler::Descriptor(self.descriptor()),
    {
        let desc = SamplerDescriptor {
            address_mode_u: self.address_mode_u,
            address_mode_v: self.address_mode_v,
            address_mode_w: self.address_mode_w,
            mag_filter: self.mag_filter,
            min_filter: self.min_filter,
            mipmap_filter: self.mipmap_filter,
            lod_min_clamp_bits: self.lod_min_clamp_bits,
            lod_max_clamp_bits: self.lod_max_clamp_bits,
            compare: match self.compare {
                Some(c) => Some(c),
                None => None,
            },
            anisotropy_clamp: self.anisotropy_clamp,
            border_color: match self.border_color {
                Some(b) => Some(b),
                None => None,
            },
        };
        ImageSampler::Descriptor(desc)
    }
}

/// The sampler state of an image after `config` was applied to it.
pub open spec fn applied(sampler: ImageSampler, config: ImageSamplerConfig) -> ImageSampler {
    ImageSampler::Descriptor(config.descriptor())
}

/// Overwrites an image's sampler state with what `config` gives.
pub fn apply_config(sampler: &mut ImageSampler, config: &ImageSamplerConfig)
    ensures
        *final(sampler) == applied(*old(sampler), *config),
{
    *sampler = config.get_sampler_descriptor();
}

/// Applying one document twice leaves the state it left after the first time.
pub proof fn lemma_apply_idempotent(sampler: ImageSampler, config: ImageSamplerConfig)
    ensures
        applied(applied(sampler, config), config) == applied(sampler, config),
{
}

} // verus!
