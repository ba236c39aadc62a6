//! Loading textures: from encoded bytes to pixels, and from pixels to the
//! device.

use crate::plugins::CoreStage;
use crate::renderer::material::{covers_size, TextureImage, TextureImageView};
use crate::renderer::util::Format;
use vstd::prelude::*;

verus! {

#[verifier::external_type_specification]
#[verifier::external_body]
pub struct ExImageError(image::ImageError);

/// A decoded image: its size and its pixels, four bytes each, red first,
/// row by row.
#[derive(Debug)]
pub struct DecodedImage {
    pub width: u32,
    pub height: u32,
    pub data: Vec<u8>,
}

/// Why a texture could not be loaded.
#[derive(Debug)]
pub struct LoadError {
    pub message: String,
}

/// What decoding the encoded image `bytes` to 8-bit RGBA gives: width,
/// height and pixel bytes, or `None` where the bytes are no image that can
/// be decoded.
pub uninterp spec fn decoded_rgba8(bytes: Seq<u8>) -> Option<(u32, u32, Seq<u8>)>;

/// Decodes an encoded image with `image::load_from_memory` and converts it
/// with `DynamicImage::to_rgba8`.
///
/// Trusted: the outcome is `decoded_rgba8` of the bytes, and the decoded
/// buffer holds exactly four bytes for each of its `width * height` pixels.
#[verifier::external_body]
fn decode_rgba8(bytes: &[u8]) -> (r: Result<DecodedImage, image::ImageError>)
    ensures
        r.is_ok() ==> decoded_rgba8(bytes@) == Some(
            (r.unwrap().width, r.unwrap().height, r.unwrap().data@),
        ),
        r.is_ok() ==> r.unwrap().data@.len() == 4 * r.unwrap().width * r.unwrap().height,
        r.is_err() ==> decoded_rgba8(bytes@).is_none(),
{
    match image::load_from_memory(bytes) {
        Ok(decoded) => {
            let rgba = decoded.to_rgba8();
            Ok(DecodedImage { width: rgba.width(), height: rgba.height(), data: rgba.into_raw() })
        },
        Err(e) => Err(e),
    }
}

/// The text of a decoding error, through `ImageError`'s `Display`.
///
/// Trusted: nothing is claimed of the text.
#[verifier::external_body]
fn error_message(e: &image::ImageError) -> String {
    e.to_string()
}

/// The texture of a decoded image: its pixels as 8-bit RGBA of its size, not
/// yet on the device.
pub open spec fn texture_of_decoded(d: DecodedImage) -> TextureImageView {
    TextureImageView {
        data: d.data@,
        format: Format::R8G8B8A8Unorm,
        size: [d.width, d.height],
        image: None,
    }
}

/// Makes the texture of a decoded image.
pub fn texture_from_decoded(decoded: &DecodedImage) -> (r: TextureImage)
    ensures
        r@ == texture_of_decoded(*decoded),
{
    TextureImage::from_bytes(
        decoded.data.as_slice(),
        Format::R8G8B8A8Unorm,
        [decoded.width, decoded.height],
    )
}

/// Loads textures from encoded image files.
#[derive(Clone, Copy, Debug)]
pub struct TextureImageLoader;

impl TextureImageLoader {
    /// Loads a texture from the bytes of an image file. The bytes are
    /// decoded to 8-bit RGBA; the texture has the decoded size and pixels,
    /// which cover that size exactly, and is not yet on the device. Bytes
    /// that cannot be decoded are an error.
    pub fn load(&self, bytes: &[u8]) -> (r: Result<TextureImage, LoadError>)
        ensures
            r.is_ok() <==> decoded_rgba8(bytes@).is_some(),
            r.is_ok() ==> decoded_rgba8(bytes@) == Some(
                (r.unwrap()@.size[0], r.unwrap()@.size[1], r.unwrap()@.data),
            ),
            r.is_ok() ==> r.unwrap()@.format == Format::R8G8B8A8Unorm,
            r.is_ok() ==> r.unwrap()@.image.is_none(),
            r.is_ok() ==> covers_size(r.unwrap()@),
    {
        match decode_rgba8(bytes) {
            Ok(decoded) => {
                let texture = texture_from_decoded(&decoded);
                assert(4 * decoded.width * decoded.height == 4 * texture@.size[0]
                    * texture@.size[1]) by (nonlinear_arith)
                    requires
                        decoded.width == texture@.size[0],
                        decoded.height == texture@.size[1],
                ;
                Ok(texture)
            },
            Err(e) => Err(LoadError { message: error_message(&e) }),
        }
    }

    /// The file extensions that this loader takes.
    pub fn extensions(&self) -> (r: Vec<&'static str>)
        ensures
            r@.len() == 1,
            r@[0]@ == "png"@,
    {
        let mut r: Vec<&'static str> = Vec::new();
        r.push("png");
        r
    }
}

/// The places, in order, of the textures that are not yet on the device
/// among the first `n`.
pub open spec fn pending_up_to(textures: Seq<&TextureImage>, n: int) -> Seq<usize>
    decreases n,
{
    if n <= 0 {
        Seq::empty()
    } else if textures[n - 1]@.image.is_none() {
        pending_up_to(textures, n - 1).push((n - 1) as usize)
    } else {
        pending_up_to(textures, n - 1)
    }
}

/// Finds the textures that have to be uploaded: those without a device
/// image, by their place, in order. A texture that has been uploaded is
/// never listed again.
pub fn upload_textures(textures: &Vec<&TextureImage>) -> (r: Vec<usize>)
    ensures
        r@ == pending_up_to(textures@, textures@.len() as int),
{
    let mut pending: Vec<usize> = Vec::new();
    let mut i: usize = 0;
    while i < textures.len()
        invariant
            i <= textures@.len(),
            pending@ == pending_up_to(textures@, i as int),
        decreases textures@.len() - i,
    {
        if textures[i].image().is_none() {
            pending.push(i);
        }
        i += 1;
    }
    pending
}

/// The pending places are exactly the places of the textures without a
/// device image, and they ascend.
pub proof fn pending_are_the_unloaded(textures: Seq<&TextureImage>, n: int)
    requires
        0 <= n <= textures.len(),
        n <= usize::MAX,
    ensures
        forall|k: int|
            0 <= k < pending_up_to(textures, n).len() ==> {
                &&& 0 <= (#[trigger] pending_up_to(textures, n)[k]) < n
                &&& textures[pending_up_to(textures, n)[k] as int]@.image.is_none()
            },
        forall|j: int, k: int|
            0 <= j < k < pending_up_to(textures, n).len() ==> pending_up_to(textures, n)[j]
                < pending_up_to(textures, n)[k],
        forall|i: int|
            0 <= i < n && (#[trigger] textures[i])@.image.is_none() ==> pending_up_to(
                textures,
                n,
            ).contains(i as usize),
    decreases n,
{
    if n > 0 {
        pending_are_the_unloaded(textures, n - 1);
        let prev = pending_up_to(textures, n - 1);
        let cur = pending_up_to(textures, n);
        if textures[n - 1]@.image.is_none() {
            assert(cur == prev.push((n - 1) as usize));
            assert(cur[cur.len() - 1] == (n - 1) as usize);
            assert forall|i: int|
                0 <= i < n && (#[trigger] textures[i])@.image.is_none() implies cur.contains(
                i as usize,
            ) by {
                if i < n - 1 {
                    let k = choose|k: int| 0 <= k < prev.len() && prev[k] == i as usize;
                    assert(cur[k] == i as usize);
                } else {
                    assert(cur[cur.len() - 1] == i as usize);
                }
            }
        } else {
            assert(cur == prev);
        }
    }
}

/// The texture loader and the upload of loaded textures, as an application
/// takes them in.
#[derive(Clone, Copy, Debug)]
pub struct LoaderPlugin;

/// What the loader plugin adds to an application.
#[derive(Clone, Copy, Debug, PartialEq, Eq, Structural)]
pub enum LoaderPart {
    /// The loader of texture files.
    AssetLoader,
    /// The system that uploads loaded textures, in its stage.
    UploadTextures(CoreStage),
}

impl LoaderPlugin {
    /// The parts in the order in which they are added: the texture loader,
    /// then the upload system, which runs before the update.
    pub fn build(&self) -> (r: Vec<LoaderPart>)
        ensures
            r@ == seq![LoaderPart::AssetLoader, LoaderPart::UploadTextures(CoreStage::PreUpdate)],
    {
        let mut r: Vec<LoaderPart> = Vec::new();
        r.push(LoaderPart::AssetLoader);
        r.push(LoaderPart::UploadTextures(CoreStage::PreUpdate));
        assert(r@ =~= seq![
            LoaderPart::AssetLoader,
            LoaderPart::UploadTextures(CoreStage::PreUpdate),
        ]);
        r
    }

    /// The plugin's name.
    pub fn name(&self) -> (r: &'static str)
        ensures
            r@ == "alnyan-loader"@,
    {
        "alnyan-loader"
    }
}

} // verus!
