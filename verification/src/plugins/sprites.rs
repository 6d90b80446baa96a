//! The plugin that draws sprites.

use vstd::prelude::*;
use crate::plugins::rendering::RenderSchedule;
use crate::plugins::rendering::RenderStage;
use crate::plugins::rendering::SystemEntry;
use crate::plugins::rendering::SystemId;
use crate::plugins::Plugin;
use image::ImageError;

verus! {

/// Records the command buffer that draws the sprites for every camera.
pub const DRAW_SPRITES_SYSTEM: SystemId = 3;

/// Draws sprites in the render stage.
pub struct SpritePlugin;

impl Plugin for SpritePlugin {
    /// Registers the system that draws the sprites in the render stage.
    fn build(self, schedule: &mut RenderSchedule)
        ensures
            final(schedule)@ == old(schedule)@.push(
                SystemEntry {
                    system: DRAW_SPRITES_SYSTEM,
                    stage: RenderStage::Render,
                    chained: false,
                },
            ),
    {
        schedule.add_system(DRAW_SPRITES_SYSTEM, RenderStage::Render);
    }
}

/// What the sprite system draws with.
pub struct SpritePluginContext {
    pipeline: ::wgpu::RenderPipeline,
    vertex_buffer: ::wgpu::Buffer,
    bind_group: ::wgpu::BindGroup,
}

impl SpritePluginContext {
    /// The pipeline that draws the sprites.
    pub closed spec fn spec_pipeline(&self) -> ::wgpu::RenderPipeline {
        self.pipeline
    }

    /// The buffer that holds the corners of a sprite.
    pub closed spec fn spec_vertex_buffer(&self) -> ::wgpu::Buffer {
        self.vertex_buffer
    }

    /// The bind group that carries the sprite's texture and sampler.
    pub closed spec fn spec_bind_group(&self) -> ::wgpu::BindGroup {
        self.bind_group
    }

    /// Puts the three handles together.
    pub fn new(
        pipeline: ::wgpu::RenderPipeline,
        vertex_buffer: ::wgpu::Buffer,
        bind_group: ::wgpu::BindGroup,
    ) -> (context: Self)
        ensures
            context.spec_pipeline() == pipeline,
            context.spec_vertex_buffer() == vertex_buffer,
            context.spec_bind_group() == bind_group,
    {
        SpritePluginContext { pipeline, vertex_buffer, bind_group }
    }

    /// The pipeline that draws the sprites.
    pub fn pipeline(&self) -> (pipeline: &::wgpu::RenderPipeline)
        ensures
            *pipeline == self.spec_pipeline(),
    {
        &self.pipeline
    }

    /// The buffer that holds the corners of a sprite.
    pub fn vertex_buffer(&self) -> (buffer: &::wgpu::Buffer)
        ensures
            *buffer == self.spec_vertex_buffer(),
    {
        &self.vertex_buffer
    }

    /// The bind group that carries the sprite's texture and sampler.
    pub fn bind_group(&self) -> (group: &::wgpu::BindGroup)
        ensures
            *group == self.spec_bind_group(),
    {
        &self.bind_group
    }
}

/// `image::ImageError`, the reason why a picture could not be read.
#[verifier::external_type_specification]
#[verifier::external_body]
pub struct ExImageError(ImageError);

/// The picture that `image::load_from_memory` reads from `encoded`, brought
/// to four bytes a pixel (red, green, blue, alpha) by `DynamicImage::to_rgba8`:
/// its width, its height and its pixels row by row. `None` where `encoded` is
/// no picture that it can read.
pub uninterp spec fn decoded_rgba(encoded: Seq<u8>) -> Option<(u32, u32, Seq<u8>)>;

/// `image::load_from_memory`, then `DynamicImage::to_rgba8`: the picture in
/// `encoded`, or the decoder's error. The picture is handed out as its width,
/// its height and its bytes (`ImageBuffer::width`, `height`, `into_raw`). The
/// result is `decoded_rgba` of the bytes.
///
/// The decoder reports bytes that it cannot read as an error. Of its own two
/// checks that would stop the program, neither depends on the bytes: it
/// allocates the pixel buffer by the length that it then asserts, and it
/// accepts only pictures of one or two bytes a channel before it tells the
/// two apart. That the `png` crate below it fails by an error on every input
/// is taken from that crate's interface, not read line by line.
#[verifier::external_body]
fn decode_rgba(encoded: &[u8]) -> (decoded: Result<(u32, u32, Vec<u8>), ImageError>)
    ensures
        match decoded {
            Ok(picture) => decoded_rgba(encoded@) == Some((picture.0, picture.1, picture.2@)),
            Err(_) => decoded_rgba(encoded@) is None,
        },
{
    let rgba = image::load_from_memory(encoded)?.to_rgba8();
    Ok((rgba.width(), rgba.height(), rgba.into_raw()))
}

/// Bytes of one pixel of a texture: red, green, blue and alpha.
pub const BYTES_PER_PIXEL: u32 = 4;

/// The pixels of a sprite and how they are laid out for the upload to the
/// backend.
pub struct SpriteTexture {
    pub width: u32,
    pub height: u32,
    /// Bytes from the start of one row to the start of the next.
    pub bytes_per_row: u32,
    /// Rows of the picture.
    pub rows_per_image: u32,
    /// The pixels, row by row, four bytes each.
    pub rgba: Vec<u8>,
}

/// Why a picture cannot become a texture.
#[derive(Clone, Copy, PartialEq, Eq, Structural, Debug)]
pub enum TextureError {
    /// The bytes are no picture that the decoder can read.
    Undecodable,
    /// A row of the picture has more bytes than 32 bits can count.
    TooWide,
    /// The pixels are not four bytes for each pixel of the picture.
    WrongLength,
}

/// What keeps a picture of these dimensions, with `len` bytes of pixels, from
/// being laid out as a texture; `None` if nothing does.
pub open spec fn layout_error(width: u32, height: u32, len: nat) -> Option<TextureError> {
    if BYTES_PER_PIXEL * width > u32::MAX {
        Some(TextureError::TooWide)
    } else if len != BYTES_PER_PIXEL * width * height {
        Some(TextureError::WrongLength)
    } else {
        None
    }
}

/// Whether `texture` is the picture of these dimensions and pixels, laid out
/// row after row without gaps.
pub open spec fn is_texture_of(texture: SpriteTexture, width: u32, height: u32, rgba: Seq<u8>) -> bool {
    &&& texture.width == width
    &&& texture.height == height
    &&& texture.bytes_per_row == BYTES_PER_PIXEL * width
    &&& texture.rows_per_image == height
    &&& texture.rgba@ == rgba
}

/// Lays a decoded picture out as a texture: rows of four bytes a pixel, one
/// after the other.
pub fn texture_layout(width: u32, height: u32, rgba: Vec<u8>) -> (texture: Result<
    SpriteTexture,
    TextureError,
>)
    ensures
        match texture {
            Ok(texture) => layout_error(width, height, rgba@.len()) is None && is_texture_of(
                texture,
                width,
                height,
                rgba@,
            ),
            Err(error) => layout_error(width, height, rgba@.len()) == Some(error),
        },
{
    if width > u32::MAX / BYTES_PER_PIXEL {
        return Err(TextureError::TooWide);
    }
    let bytes_per_row = BYTES_PER_PIXEL * width;
    assert(bytes_per_row * height <= 0xFFFF_FFFF * 0xFFFF_FFFF) by (nonlinear_arith)
        requires
            bytes_per_row <= 0xFFFF_FFFF,
            height <= 0xFFFF_FFFF,
    ;
    let expected: u64 = (bytes_per_row as u64) * (height as u64);
    assert(expected == BYTES_PER_PIXEL * width * height) by (nonlinear_arith)
        requires
            expected == bytes_per_row * height,
            bytes_per_row == BYTES_PER_PIXEL * width,
    ;
    if rgba.len() as u64 != expected {
        return Err(TextureError::WrongLength);
    }
    Ok(SpriteTexture { width, height, bytes_per_row, rows_per_image: height, rgba })
}

/// Decodes a sprite and lays it out as a texture.
pub fn load_sprite_texture(encoded: &[u8]) -> (texture: Result<SpriteTexture, TextureError>)
    ensures
        match (decoded_rgba(encoded@), texture) {
            (None, Err(error)) => error == TextureError::Undecodable,
            (Some(picture), Ok(texture)) => layout_error(picture.0, picture.1, picture.2.len())
                is None && is_texture_of(texture, picture.0, picture.1, picture.2),
            (Some(picture), Err(error)) => layout_error(picture.0, picture.1, picture.2.len())
                == Some(error),
            (None, Ok(_)) => false,
        },
{
    match decode_rgba(encoded) {
        Ok(picture) => texture_layout(picture.0, picture.1, picture.2),
        Err(_) => Err(TextureError::Undecodable),
    }
}

} // verus!
