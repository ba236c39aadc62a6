//! Textures and materials.

use crate::renderer::util::Format;
use vstd::prelude::*;

verus! {

/// Names a device-resident image. The holder of the device objects chooses
/// the number and finds the image again by it.
#[derive(Clone, Copy, Debug, PartialEq, Eq, Structural)]
pub struct ImageHandle(pub u64);

/// The transfer that makes a texture device-resident: a two-dimensional
/// image of one layer and one mip level, filled from the texture's bytes.
#[derive(Clone, Copy, Debug, PartialEq, Eq)]
pub struct ImageUpload {
    pub image: ImageHandle,
    pub width: u32,
    pub height: u32,
    pub array_layers: u32,
    pub mip_levels: u32,
    pub format: Format,
    pub byte_len: usize,
}

/// Decoded pixels, and the device image made from them once they have been
/// uploaded.
#[derive(Debug)]
pub struct TextureImage {
    data: Vec<u8>,
    format: Format,
    size: [u32; 2],
    image: Option<ImageHandle>,
}

/// What a texture is, for contracts.
pub struct TextureImageView {
    pub data: Seq<u8>,
    pub format: Format,
    pub size: [u32; 2],
    pub image: Option<ImageHandle>,
}

impl View for TextureImage {
    type V = TextureImageView;

    closed spec fn view(&self) -> TextureImageView {
        TextureImageView {
            data: self.data@,
            format: self.format,
            size: self.size,
            image: self.image,
        }
    }
}

/// The number of bytes of one pixel.
pub open spec fn bytes_per_pixel(format: Format) -> int {
    match format {
        Format::B8G8R8A8Srgb => 4,
        Format::R8G8B8A8Unorm => 4,
        Format::D32Sfloat => 4,
    }
}

/// The bytes are exactly the pixels of an image of the stated size.
pub open spec fn covers_size(t: TextureImageView) -> bool {
    t.data.len() == bytes_per_pixel(t.format) * t.size[0] * t.size[1]
}

/// The transfer that uploads `t` under the name `image`.
pub open spec fn upload_of(t: TextureImageView, image: ImageHandle) -> ImageUpload {
    ImageUpload {
        image: image,
        width: t.size[0],
        height: t.size[1],
        array_layers: 1,
        mip_levels: 1,
        format: t.format,
        byte_len: t.data.len() as usize,
    }
}

/// The texture after an upload under the name `image` was asked for: a
/// texture that had no device image has this one, any other is unchanged.
pub open spec fn after_upload(t: TextureImageView, image: ImageHandle) -> TextureImageView {
    if t.image.is_none() {
        TextureImageView { image: Some(image), ..t }
    } else {
        t
    }
}

/// The transfer to perform when an upload under the name `image` is asked
/// for: one for a texture that has no device image, none otherwise.
pub open spec fn upload_needed(t: TextureImageView, image: ImageHandle) -> Option<ImageUpload> {
    if t.image.is_none() {
        Some(upload_of(t, image))
    } else {
        None
    }
}

impl TextureImage {
    /// A texture of the given pixels that is not yet on the device.
    pub fn from_bytes(bytes: &[u8], format: Format, size: [u32; 2]) -> (r: Self)
        ensures
            r@ == (TextureImageView { data: bytes@, format: format, size: size, image: None }),
    {
        let mut data: Vec<u8> = Vec::new();
        let mut i: usize = 0;
        while i < bytes.len()
            invariant
                i <= bytes@.len(),
                data@ == bytes@.subrange(0, i as int),
            decreases bytes@.len() - i,
        {
            data.push(bytes[i]);
            assert(data@ =~= bytes@.subrange(0, i + 1));
            i += 1;
        }
        assert(data@ =~= bytes@);
        TextureImage { data: data, format: format, size: size, image: None }
    }

    /// The pixel bytes.
    pub fn data(&self) -> (r: &Vec<u8>)
        ensures
            r@ == self@.data,
    {
        &self.data
    }

    /// The pixel format.
    pub fn format(&self) -> (r: Format)
        ensures
            r == self@.format,
    {
        self.format
    }

    /// Width and height in pixels.
    pub fn size(&self) -> (r: [u32; 2])
        ensures
            r == self@.size,
    {
        self.size
    }

    /// The device image, once the texture has been uploaded.
    pub fn image(&self) -> (r: Option<ImageHandle>)
        ensures
            r == self@.image,
    {
        self.image
    }

    /// The transfer by which the texture's device image is filled; `None`
    /// while the texture has no device image.
    pub fn device_upload(&self) -> (r: Option<ImageUpload>)
        ensures
            r == match self@.image {
                Some(image) => Some(upload_of(self@, image)),
                None => None,
            },
    {
        match self.image {
            Some(image) => Some(
                ImageUpload {
                    image: image,
                    width: self.size[0],
                    height: self.size[1],
                    array_layers: 1,
                    mip_levels: 1,
                    format: self.format,
                    byte_len: self.data.len(),
                },
            ),
            None => None,
        }
    }

    /// Asks for the texture to be made device-resident under the name
    /// `image`. A texture that has no device image takes the name and the
    /// transfer to perform is returned; one that has a device image stays as
    /// it is and nothing is to be done.
    pub fn upload_to_gpu(&mut self, image: ImageHandle) -> (r: Option<ImageUpload>)
        ensures
            final(self)@ == after_upload(old(self)@, image),
            r == upload_needed(old(self)@, image),
    {
        match self.image {
            Some(_) => None,
            None => {
                self.image = Some(image);
                Some(
                    ImageUpload {
                        image: image,
                        width: self.size[0],
                        height: self.size[1],
                        array_layers: 1,
                        mip_levels: 1,
                        format: self.format,
                        byte_len: self.data.len(),
                    },
                )
            },
        }
    }
}

/// Uploading is done at most once: whatever names two successive requests
/// carry, the second asks for no transfer and leaves the texture, and with
/// it the name of its device image, as the first left it.
pub proof fn upload_is_idempotent(t: TextureImageView, first: ImageHandle, second: ImageHandle)
    ensures
        upload_needed(after_upload(t, first), second).is_none(),
        after_upload(after_upload(t, first), second) == after_upload(t, first),
        after_upload(t, first).image.is_some(),
        t.image.is_some() ==> after_upload(t, first) == t && upload_needed(t, first).is_none(),
{
}

/// A surface colour and an optional diffuse texture.
#[derive(Debug)]
pub struct DisplayMaterial {
    /// Red, green, blue and alpha as `f32` bit patterns.
    pub k_diffuse: [u32; 4],
    pub k_diffuse_map: Option<TextureImage>,
}

/// A material as the scene describes it: its colour, and its texture if it
/// names one, which is `None` inside while the pixels are not yet loaded.
pub struct StandardMaterial<'a> {
    /// Red, green, blue and alpha as `f32` bit patterns.
    pub base_color: [u32; 4],
    pub base_color_texture: Option<Option<&'a SourceImage>>,
}

/// Loaded pixels of a scene texture: four bytes per pixel, red first.
pub struct SourceImage {
    pub size: [u32; 2],
    pub data: Vec<u8>,
}

impl DisplayMaterial {
    /// Makes the renderer's material from the scene's. A material without a
    /// texture keeps its colour and has no map. One whose texture is loaded
    /// gets a map of those pixels, not yet device-resident. One whose texture
    /// is still loading gives no material yet.
    pub fn from_standard_material(material: &StandardMaterial) -> (r: Option<Self>)
        ensures
            material.base_color_texture == Some(None::<&SourceImage>) <==> r.is_none(),
            r.is_some() ==> r.unwrap().k_diffuse == material.base_color,
            material.base_color_texture.is_none() ==> r.is_some()
                && r.unwrap().k_diffuse_map.is_none(),
            material.base_color_texture.is_some() && material.base_color_texture.unwrap().is_some()
                ==> r.is_some() && r.unwrap().k_diffuse_map.is_some()
                && r.unwrap().k_diffuse_map.unwrap()@ == (TextureImageView {
                data: material.base_color_texture.unwrap().unwrap().data@,
                format: Format::R8G8B8A8Unorm,
                size: material.base_color_texture.unwrap().unwrap().size,
                image: None,
            }),
    {
        let k_diffuse_map = match material.base_color_texture {
            Some(Some(src_image)) => Some(
                TextureImage::from_bytes(
                    src_image.data.as_slice(),
                    Format::R8G8B8A8Unorm,
                    src_image.size,
                ),
            ),
            Some(None) => {
                return None;
            },
            None => None,
        };
        Some(DisplayMaterial { k_diffuse: material.base_color, k_diffuse_map: k_diffuse_map })
    }
}

} // verus!
