//! Textures: the depth attachment, and sampled images made from decoded
//! pixels.

use vstd::prelude::*;
use crate::gpu::{
    AddressMode, CompareFunction, Extent3d, FilterMode, ImageDataLayout, LodClamp,
    SamplerDescriptor, SwapChainDescriptor, TextureDescriptor, TextureDimension, TextureFormat,
    TextureUsage, no_texture_usage,
};

verus! {

/// Decoded pixels: `rgba` holds the rows from the top, four bytes a pixel.
#[derive(Clone, Debug, PartialEq, Eq)]
pub struct DecodedImage {
    pub width: u32,
    pub height: u32,
    pub rgba: Vec<u8>,
}

/// Why no texture could be made.
#[derive(Clone, Copy, Debug, PartialEq, Eq, Structural)]
pub enum TextureError {
    /// The decoder made no image of the bytes.
    Decode,
    /// A row of pixels takes more bytes than a 32-bit stride can say.
    TooLarge,
    /// The pixel buffer does not hold `4 * width * height` bytes.
    SizeMismatch,
}

/// The pixels to copy into a texture after it is created.
#[derive(Clone, Debug, PartialEq, Eq)]
pub struct TextureUpload {
    pub data: Vec<u8>,
    pub layout: ImageDataLayout,
    pub size: Extent3d,
}

/// A GPU image with the sampler through which it is read. The view is the
/// default one of the whole image.
#[derive(Clone, Debug, PartialEq, Eq)]
pub struct Texture {
    pub label: Option<String>,
    pub desc: TextureDescriptor,
    pub sampler: SamplerDescriptor,
    pub upload: Option<TextureUpload>,
}

/// The format of the depth attachment. Pipelines and passes must agree on
/// it.
pub const DEPTH_FORMAT: TextureFormat = TextureFormat::Depth32Float;

/// The comparison under which a fragment passes the depth test.
pub const DEPTH_COMPARE: CompareFunction = CompareFunction::LessEqual;

/// The size of a two-dimensional texture: one layer deep.
pub open spec fn flat_extent(width: u32, height: u32) -> Extent3d {
    Extent3d { width, height, depth_or_array_layers: 1 }
}

/// A depth attachment of the given size: one level, one sample, 32-bit
/// depth, usable as a render attachment and for sampling.
pub open spec fn depth_descriptor(width: u32, height: u32) -> TextureDescriptor {
    TextureDescriptor {
        size: flat_extent(width, height),
        mip_level_count: 1,
        sample_count: 1,
        dimension: TextureDimension::D2,
        format: TextureFormat::Depth32Float,
        usage: TextureUsage { render_attachment: true, sampled: true, ..no_texture_usage() },
    }
}

/// The sampler of the depth attachment: clamped at the edges, linear
/// within a level, and comparing with less-or-equal.
pub open spec fn depth_sampler() -> SamplerDescriptor {
    SamplerDescriptor {
        address_mode_u: AddressMode::ClampToEdge,
        address_mode_v: AddressMode::ClampToEdge,
        address_mode_w: AddressMode::ClampToEdge,
        mag_filter: FilterMode::Linear,
        min_filter: FilterMode::Linear,
        mipmap_filter: FilterMode::Nearest,
        lod_clamp: LodClamp::Between { min: -100i32, max: 100i32 },
        compare: Some(CompareFunction::LessEqual),
    }
}

/// A sampled colour image of the given size: one level, one sample, 8-bit
/// RGBA in sRGB encoding, filled by a copy.
pub open spec fn diffuse_descriptor(width: u32, height: u32) -> TextureDescriptor {
    TextureDescriptor {
        size: flat_extent(width, height),
        mip_level_count: 1,
        sample_count: 1,
        dimension: TextureDimension::D2,
        format: TextureFormat::Rgba8UnormSrgb,
        usage: TextureUsage { sampled: true, copy_dst: true, ..no_texture_usage() },
    }
}

/// The sampler of a colour image: clamped at the edges, linear when
/// magnified, nearest when minified or between levels.
pub open spec fn diffuse_sampler() -> SamplerDescriptor {
    SamplerDescriptor {
        address_mode_u: AddressMode::ClampToEdge,
        address_mode_v: AddressMode::ClampToEdge,
        address_mode_w: AddressMode::ClampToEdge,
        mag_filter: FilterMode::Linear,
        min_filter: FilterMode::Nearest,
        mipmap_filter: FilterMode::Nearest,
        lod_clamp: LodClamp::Unbounded,
        compare: None,
    }
}

/// A stride or a row count as the copy takes it: zero is "not given".
pub open spec fn non_zero(n: u32) -> Option<u32> {
    if n == 0 {
        None
    } else {
        Some(n)
    }
}

/// How tightly packed RGBA rows of the given size lie in memory.
pub open spec fn packed_rgba_layout(width: u32, height: u32) -> ImageDataLayout {
    ImageDataLayout {
        offset: 0,
        bytes_per_row: non_zero((4 * width) as u32),
        rows_per_image: non_zero(height),
    }
}

/// Bytes taken by the pixels of an RGBA image of the given size.
pub fn rgba_len(width: u32, height: u32) -> (n: u128)
    ensures
        n == 4 * width * height,
{
    let row: u64 = 4 * (width as u64);
    assert(row * height <= 0x4_0000_0000 * 0x1_0000_0000) by (nonlinear_arith)
        requires
            row <= 0x4_0000_0000,
            height <= 0x1_0000_0000,
    ;
    assert(row * height == 4 * width * height) by (nonlinear_arith)
        requires
            row == 4 * width,
    ;
    (row as u128) * (height as u128)
}

/// A label as a sequence of characters, where there is one.
pub open spec fn label_of(label: Option<&str>) -> Option<Seq<char>> {
    match label {
        Some(s) => Some(s@),
        None => None,
    }
}

impl Texture {
    /// The label as a sequence of characters, where there is one.
    pub open spec fn label_view(self) -> Option<Seq<char>> {
        match self.label {
            Some(s) => Some(s@),
            None => None,
        }
    }

    /// Width in texels.
    pub open spec fn width(self) -> u32 {
        self.desc.size.width
    }

    /// Height in texels.
    pub open spec fn height(self) -> u32 {
        self.desc.size.height
    }

    /// `self` is a depth attachment of the given size.
    pub open spec fn is_depth(self, width: u32, height: u32) -> bool {
        &&& self.desc == depth_descriptor(width, height)
        &&& self.sampler == depth_sampler()
        &&& self.upload is None
    }

    /// `self` is the sampled image of the given pixels.
    pub open spec fn is_diffuse(self, width: u32, height: u32, rgba: Seq<u8>) -> bool {
        &&& self.desc == diffuse_descriptor(width, height)
        &&& self.sampler == diffuse_sampler()
        &&& self.upload matches Some(upload)
        &&& upload.data@ == rgba
        &&& upload.layout == packed_rgba_layout(width, height)
        &&& upload.size == flat_extent(width, height)
    }

    /// The depth attachment for a presentation chain: it has the chain's
    /// width and height.
    pub fn create_depth_texture(sc_desc: &SwapChainDescriptor, label: &str) -> (texture: Texture)
        ensures
            texture.is_depth(sc_desc.width, sc_desc.height),
            texture.label_view() == Some(label@),
    {
        let size = Extent3d {
            width: sc_desc.width,
            height: sc_desc.height,
            depth_or_array_layers: 1,
        };
        let desc = TextureDescriptor {
            size,
            mip_level_count: 1,
            sample_count: 1,
            dimension: TextureDimension::D2,
            format: DEPTH_FORMAT,
            usage: TextureUsage {
                copy_src: false,
                copy_dst: false,
                sampled: true,
                storage: false,
                render_attachment: true,
            },
        };
        let sampler = SamplerDescriptor {
            address_mode_u: AddressMode::ClampToEdge,
            address_mode_v: AddressMode::ClampToEdge,
            address_mode_w: AddressMode::ClampToEdge,
            mag_filter: FilterMode::Linear,
            min_filter: FilterMode::Linear,
            mipmap_filter: FilterMode::Nearest,
            lod_clamp: LodClamp::Between { min: -100, max: 100 },
            compare: Some(DEPTH_COMPARE),
        };
        Texture { label: Some(label.to_owned()), desc, sampler, upload: None }
    }

    /// What `from_image` returns for an image of the given size and
    /// pixels, but for the texture itself.
    pub open spec fn image_verdict(width: u32, height: u32, rgba: Seq<u8>) -> Result<
        (),
        TextureError,
    > {
        if 4 * width > u32::MAX {
            Err(TextureError::TooLarge)
        } else if rgba.len() != 4 * width * height {
            Err(TextureError::SizeMismatch)
        } else {
            Ok(())
        }
    }

    /// The sampled texture of a decoded image, with the copy that fills it.
    ///
    /// An image whose rows would take more than a 32-bit stride is
    /// refused as too large; otherwise one whose buffer is not
    /// `4 * width * height` bytes long is refused as mismatched.
    pub fn from_image(img: &DecodedImage, label: Option<&str>) -> (r: Result<Texture, TextureError>)
        ensures
            Self::image_verdict(img.width, img.height, img.rgba@) matches Err(e) ==> r == Err::<
                Texture,
                TextureError,
            >(e),
            Self::image_verdict(img.width, img.height, img.rgba@) is Ok ==> {
                &&& r matches Ok(texture)
                &&& texture.is_diffuse(img.width, img.height, img.rgba@)
                &&& texture.label_view() == label_of(label)
            },
    {
        if img.width > u32::MAX / 4 {
            return Err(TextureError::TooLarge);
        }
        let expected = rgba_len(img.width, img.height);
        if img.rgba.len() as u128 != expected {
            return Err(TextureError::SizeMismatch);
        }
        let size = Extent3d { width: img.width, height: img.height, depth_or_array_layers: 1 };
        let desc = TextureDescriptor {
            size,
            mip_level_count: 1,
            sample_count: 1,
            dimension: TextureDimension::D2,
            format: TextureFormat::Rgba8UnormSrgb,
            usage: TextureUsage {
                copy_src: false,
                copy_dst: true,
                sampled: true,
                storage: false,
                render_attachment: false,
            },
        };
        let bytes_per_row: u32 = 4 * img.width;
        let layout = ImageDataLayout {
            offset: 0,
            bytes_per_row: if bytes_per_row == 0 {
                None
            } else {
                Some(bytes_per_row)
            },
            rows_per_image: if img.height == 0 {
                None
            } else {
                Some(img.height)
            },
        };
        let sampler = SamplerDescriptor {
            address_mode_u: AddressMode::ClampToEdge,
            address_mode_v: AddressMode::ClampToEdge,
            address_mode_w: AddressMode::ClampToEdge,
            mag_filter: FilterMode::Linear,
            min_filter: FilterMode::Nearest,
            mipmap_filter: FilterMode::Nearest,
            lod_clamp: LodClamp::Unbounded,
            compare: None,
        };
        let data = img.rgba.clone();
        let stored = match label {
            Some(s) => Some(s.to_owned()),
            None => None,
        };
        let upload = TextureUpload { data, layout, size };
        Ok(Texture { label: stored, desc, sampler, upload: Some(upload) })
    }

    /// The sampled texture of an encoded image, given what the decoder made
    /// of its bytes: the decoded pixels, or nothing where it reported an
    /// error.
    ///
    /// Where the decoder made no image, neither does this function.
    /// Decoded pixels are treated as `from_image` treats them, and the
    /// texture bears the label.
    pub fn from_bytes(decoded: Option<&DecodedImage>, label: &str) -> (r: Result<
        Texture,
        TextureError,
    >)
        ensures
            decoded is None ==> r == Err::<Texture, TextureError>(TextureError::Decode),
            decoded matches Some(img) ==> {
                &&& Self::image_verdict(img.width, img.height, img.rgba@) matches Err(e) ==> r
                    == Err::<Texture, TextureError>(e)
                &&& Self::image_verdict(img.width, img.height, img.rgba@) is Ok ==> {
                    &&& r matches Ok(texture)
                    &&& texture.is_diffuse(img.width, img.height, img.rgba@)
                    &&& texture.label_view() == Some(label@)
                }
            },
    {
        match decoded {
            None => Err(TextureError::Decode),
            Some(img) => Self::from_image(img, Some(label)),
        }
    }
}

} // verus!
