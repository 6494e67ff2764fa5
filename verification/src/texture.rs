//! The sampling target: the texture that the canvas is uploaded to, how it is
//! sampled and bound, and the layout of an upload.

use crate::pixel::{byte_view, Pixel, PixelBuffer};
use vstd::prelude::*;

verus! {

/// The size of a texture in texels.
#[derive(Debug, Clone, Copy, PartialEq, Eq, Structural)]
pub struct Extent3d {
    pub width: u32,
    pub height: u32,
    pub depth: u32,
}

/// A position in a texture in texels.
#[derive(Debug, Clone, Copy, PartialEq, Eq, Structural)]
pub struct Origin3d {
    pub x: u32,
    pub y: u32,
    pub z: u32,
}

/// The texel formats that the canvas and the swap chain use.
#[derive(Debug, Clone, Copy, PartialEq, Eq, Structural)]
pub enum TextureFormat {
    Rgba8Unorm,
    /// Red, green, blue and alpha, eight bits each, decoded from sRGB when
    /// sampled.
    Rgba8UnormSrgb,
    Bgra8Unorm,
    Bgra8UnormSrgb,
}

/// The number of dimensions of a texture.
#[derive(Debug, Clone, Copy, PartialEq, Eq, Structural)]
pub enum TextureDimension {
    D1,
    D2,
    D3,
}

/// What a texture may be used for.
#[derive(Debug, Clone, Copy, PartialEq, Eq, Structural)]
pub struct TextureUsage {
    pub copy_src: bool,
    /// The texture may be written by an upload.
    pub copy_dst: bool,
    /// The texture may be bound for sampling.
    pub sampled: bool,
    pub storage: bool,
    /// The texture may be the target of a render pass.
    pub render_attachment: bool,
}

/// Describes the texture of a layer.
#[derive(Debug, Clone, Copy, PartialEq, Eq, Structural)]
pub struct TextureDescriptor {
    pub size: Extent3d,
    pub mip_level_count: u32,
    pub sample_count: u32,
    pub dimension: TextureDimension,
    pub format: TextureFormat,
    pub usage: TextureUsage,
}

/// What a sampler does with a coordinate outside the texture.
#[derive(Debug, Clone, Copy, PartialEq, Eq, Structural)]
pub enum AddressMode {
    ClampToEdge,
    Repeat,
    MirrorRepeat,
}

/// How a sampler picks a colour between texels.
#[derive(Debug, Clone, Copy, PartialEq, Eq, Structural)]
pub enum FilterMode {
    Nearest,
    Linear,
}

/// Describes the sampler of the canvas texture.
#[derive(Debug, Clone, Copy, PartialEq, Eq, Structural)]
pub struct SamplerDescriptor {
    pub address_mode_u: AddressMode,
    pub address_mode_v: AddressMode,
    pub address_mode_w: AddressMode,
    pub mag_filter: FilterMode,
    pub min_filter: FilterMode,
    pub mipmap_filter: FilterMode,
}

/// The shader stages that can see a binding.
#[derive(Debug, Clone, Copy, PartialEq, Eq, Structural)]
pub struct ShaderStage {
    pub vertex: bool,
    pub fragment: bool,
    pub compute: bool,
}

/// The dimensions of a texture as a shader sees it.
#[derive(Debug, Clone, Copy, PartialEq, Eq, Structural)]
pub enum TextureViewDimension {
    D1,
    D2,
    D2Array,
    Cube,
    CubeArray,
    D3,
}

/// The kind of value that sampling a texture gives.
#[derive(Debug, Clone, Copy, PartialEq, Eq, Structural)]
pub enum TextureSampleType {
    Float { filterable: bool },
    Depth,
    Sint,
    Uint,
}

/// What is bound at one binding of the bind group.
#[derive(Debug, Clone, Copy, PartialEq, Eq, Structural)]
pub enum BindingType {
    Texture {
        view_dimension: TextureViewDimension,
        sample_type: TextureSampleType,
        multisampled: bool,
    },
    Sampler { comparison: bool, filtering: bool },
}

/// One entry of the bind group layout.
#[derive(Debug, Clone, Copy, PartialEq, Eq, Structural)]
pub struct BindGroupLayoutEntry {
    pub binding: u32,
    pub visibility: ShaderStage,
    pub ty: BindingType,
}

/// Where in a byte sequence the rows of an upload lie.
#[derive(Debug, Clone, Copy, PartialEq, Eq, Structural)]
pub struct TextureDataLayout {
    /// The offset of the first row.
    pub offset: u64,
    /// The row pitch: the number of bytes from the start of one row to the
    /// start of the next.
    pub bytes_per_row: u32,
    pub rows_per_image: u32,
}

/// One upload of pixel data to a texture: what to write, where in the
/// texture, and how the data is laid out.
#[derive(Debug, Clone, PartialEq, Eq)]
pub struct TextureWrite {
    pub mip_level: u32,
    pub origin: Origin3d,
    pub data: Vec<u8>,
    pub layout: TextureDataLayout,
    pub size: Extent3d,
}

/// Why an upload was refused.
#[derive(Debug, Clone, Copy, PartialEq, Eq, Structural)]
pub enum UploadError {
    /// The buffer holds `actual` pixels and the texture `expected` texels.
    SizeMismatch { expected: u64, actual: u64 },
}

/// The texture of the canvas: its width and height in texels, fixed when it
/// is made.
#[derive(Debug, Clone, Copy, PartialEq, Eq, Structural)]
pub struct Layer {
    pub width: u32,
    pub height: u32,
    pub texture_size: Extent3d,
}

/// The texel at column `x` of row `y`, read from `data` as `layout` says:
/// four bytes, red first, at the row's start plus four bytes for each texel
/// before it.
pub open spec fn texel(data: Seq<u8>, layout: TextureDataLayout, x: int, y: int) -> Pixel {
    let at = layout.offset + y * layout.bytes_per_row + 4 * x;
    Pixel { r: data[at], g: data[at + 1], b: data[at + 2], a: data[at + 3] }
}

impl TextureWrite {
    /// The data holds all four bytes of the texel at column `x` of row `y`.
    pub open spec fn holds(self, x: int, y: int) -> bool {
        &&& 0 <= x
        &&& 0 <= y
        &&& self.layout.offset + y * self.layout.bytes_per_row + 4 * x + 4 <= self.data@.len()
    }

    /// The texel at column `x` of row `y`, read from the data by its layout.
    pub fn texel_at(&self, x: u32, y: u32) -> (p: Pixel)
        requires
            self.holds(x as int, y as int),
        ensures
            p == texel(self.data@, self.layout, x as int, y as int),
    {
        let pitch: u32 = self.layout.bytes_per_row;
        assert(self.data@.len() == self.data.len() <= usize::MAX);
        assert(0 <= y * pitch <= u32::MAX * u32::MAX) by (nonlinear_arith)
            requires
                0 <= y <= u32::MAX,
                0 <= pitch <= u32::MAX,
        ;
        let row: u64 = (y as u64) * (pitch as u64);
        let at: usize = (self.layout.offset + row + 4 * (x as u64)) as usize;
        Pixel {
            r: self.data[at],
            g: self.data[at + 1],
            b: self.data[at + 2],
            a: self.data[at + 3],
        }
    }
}

impl Origin3d {
    /// The first texel of a texture.
    pub open spec fn zero() -> Origin3d {
        Origin3d { x: 0, y: 0, z: 0 }
    }
}

impl Layer {
    /// The texture is flat, as large as the layer says, and one of its rows
    /// has a length in bytes that fits the row pitch of an upload.
    pub open spec fn wf(self) -> bool {
        &&& self.texture_size == (Extent3d { width: self.width, height: self.height, depth: 1 })
        &&& 4 * self.width <= u32::MAX
    }

    /// The number of texels of the texture.
    pub open spec fn texel_count(self) -> int {
        self.width * self.height
    }

    /// A layer of `width` by `height` texels.
    pub fn new(width: u32, height: u32) -> (layer: Layer)
        requires
            4 * width <= u32::MAX,
        ensures
            layer.wf(),
            layer.width == width,
            layer.height == height,
    {
        Layer { width, height, texture_size: Extent3d { width, height, depth: 1 } }
    }

    /// The texture of the layer: two-dimensional, of the layer's size, with
    /// one mip level and one sample, in 8-bit RGBA decoded from sRGB, to be
    /// written by uploads and sampled.
    pub fn texture_descriptor(&self) -> (desc: TextureDescriptor)
        ensures
            desc == (TextureDescriptor {
                size: self.texture_size,
                mip_level_count: 1,
                sample_count: 1,
                dimension: TextureDimension::D2,
                format: TextureFormat::Rgba8UnormSrgb,
                usage: TextureUsage {
                    copy_src: false,
                    copy_dst: true,
                    sampled: true,
                    storage: false,
                    render_attachment: false,
                },
            }),
    {
        TextureDescriptor {
            size: self.texture_size,
            mip_level_count: 1,
            sample_count: 1,
            dimension: TextureDimension::D2,
            format: TextureFormat::Rgba8UnormSrgb,
            usage: TextureUsage {
                copy_src: false,
                copy_dst: true,
                sampled: true,
                storage: false,
                render_attachment: false,
            },
        }
    }

    /// Whether `write` is the upload of `pixels` to this layer: the byte view
    /// of the pixels, written from the first texel of mip level 0 over the
    /// whole texture, with a row pitch of four bytes for each texel of a row
    /// and as many rows as the texture is high.
    pub open spec fn uploads(self, pixels: Seq<Pixel>, write: TextureWrite) -> bool {
        &&& write.mip_level == 0
        &&& write.origin == Origin3d::zero()
        &&& write.data@ == byte_view(pixels)
        &&& write.layout == (TextureDataLayout {
            offset: 0,
            bytes_per_row: (4 * self.width) as u32,
            rows_per_image: self.height,
        })
        &&& write.size == self.texture_size
    }

    /// The upload of `buffer` to the texture. It is refused, and nothing is
    /// to be written, exactly when the buffer does not hold one pixel for
    /// each texel.
    pub fn upload(&self, buffer: &PixelBuffer) -> (res: Result<TextureWrite, UploadError>)
        requires
            self.wf(),
        ensures
            buffer@.len() == self.texel_count() ==> res is Ok && self.uploads(buffer@, res->Ok_0),
            buffer@.len() != self.texel_count() ==> res == Err::<TextureWrite, UploadError>(
                UploadError::SizeMismatch {
                    expected: self.texel_count() as u64,
                    actual: buffer@.len() as u64,
                },
            ),
    {
        let expected: u64 = texel_count_of(self.width, self.height);
        let actual: u64 = buffer.len() as u64;
        if actual != expected {
            return Err(UploadError::SizeMismatch { expected, actual });
        }
        Ok(
            TextureWrite {
                mip_level: 0,
                origin: Origin3d { x: 0, y: 0, z: 0 },
                data: buffer.as_bytes(),
                layout: TextureDataLayout {
                    offset: 0,
                    bytes_per_row: 4 * self.width,
                    rows_per_image: self.height,
                },
                size: self.texture_size,
            },
        )
    }
}

/// The number of texels of a texture of `width` by `height`.
fn texel_count_of(width: u32, height: u32) -> (n: u64)
    ensures
        n == width * height,
{
    assert(width * height <= u32::MAX * u32::MAX) by (nonlinear_arith)
        requires
            width <= u32::MAX,
            height <= u32::MAX,
    ;
    (width as u64) * (height as u64)
}

/// The sampler of the canvas: the nearest texel, never a blend of texels, and
/// the edge texel for a coordinate outside the texture, never a wrapped one.
pub fn sampler_descriptor() -> (desc: SamplerDescriptor)
    ensures
        desc == (SamplerDescriptor {
            address_mode_u: AddressMode::ClampToEdge,
            address_mode_v: AddressMode::ClampToEdge,
            address_mode_w: AddressMode::ClampToEdge,
            mag_filter: FilterMode::Nearest,
            min_filter: FilterMode::Nearest,
            mipmap_filter: FilterMode::Nearest,
        }),
{
    SamplerDescriptor {
        address_mode_u: AddressMode::ClampToEdge,
        address_mode_v: AddressMode::ClampToEdge,
        address_mode_w: AddressMode::ClampToEdge,
        mag_filter: FilterMode::Nearest,
        min_filter: FilterMode::Nearest,
        mipmap_filter: FilterMode::Nearest,
    }
}

/// The layout of the bind group: at binding 0 the canvas texture, at binding
/// 1 its sampler, both for the fragment stage alone. Neither asks for
/// filtering, as the sampler does none.
pub open spec fn canvas_bindings() -> [BindGroupLayoutEntry; 2] {
    [
        BindGroupLayoutEntry {
            binding: 0,
            visibility: ShaderStage { vertex: false, fragment: true, compute: false },
            ty: BindingType::Texture {
                view_dimension: TextureViewDimension::D2,
                sample_type: TextureSampleType::Float { filterable: false },
                multisampled: false,
            },
        },
        BindGroupLayoutEntry {
            binding: 1,
            visibility: ShaderStage { vertex: false, fragment: true, compute: false },
            ty: BindingType::Sampler { comparison: false, filtering: false },
        },
    ]
}

/// The layout of the bind group: the canvas texture, then its sampler.
pub fn bind_group_layout() -> (entries: [BindGroupLayoutEntry; 2])
    ensures
        entries == canvas_bindings(),
{
    let fragment = ShaderStage { vertex: false, fragment: true, compute: false };
    [
        BindGroupLayoutEntry {
            binding: 0,
            visibility: fragment,
            ty: BindingType::Texture {
                view_dimension: TextureViewDimension::D2,
                sample_type: TextureSampleType::Float { filterable: false },
                multisampled: false,
            },
        },
        BindGroupLayoutEntry {
            binding: 1,
            visibility: fragment,
            ty: BindingType::Sampler { comparison: false, filtering: false },
        },
    ]
}

/// Read by its row pitch, an upload holds at column `x` of row `y` the pixel
/// that the buffer holds at index `y * width + x`: the rows of the buffer
/// and the rows of the texture coincide, with no padding between them.
pub proof fn lemma_upload_keeps_pixels(
    layer: Layer,
    pixels: Seq<Pixel>,
    write: TextureWrite,
    x: int,
    y: int,
)
    requires
        layer.wf(),
        pixels.len() == layer.texel_count(),
        layer.uploads(pixels, write),
        0 <= x < layer.width,
        0 <= y < layer.height,
    ensures
        0 <= y * layer.width + x < pixels.len(),
        write.holds(x, y),
        texel(write.data@, write.layout, x, y) == pixels[y * layer.width + x],
{
    let w = layer.width as int;
    let h = layer.height as int;
    let i = y * w + x;
    lemma_index_in_canvas(w, h, x, y);
    assert(y * (4 * w) + 4 * x == 4 * i) by (nonlinear_arith)
        requires
            i == y * w + x,
    ;
    let at = write.layout.offset + y * write.layout.bytes_per_row + 4 * x;
    assert(at == 4 * i);
}

/// In a canvas of `width` by `height` pixels, every place has an index
/// within the canvas.
proof fn lemma_index_in_canvas(width: int, height: int, x: int, y: int)
    requires
        0 <= x < width,
        0 <= y < height,
    ensures
        0 <= y * width + x < width * height,
{
    assert(0 <= y * width + x < width * height) by (nonlinear_arith)
        requires
            0 <= x < width,
            0 <= y < height,
    ;
}

/// In a canvas `width` pixels wide, two places share an index only where
/// they are the same place.
proof fn lemma_index_tells_places_apart(width: int, x: int, y: int, x2: int, y2: int)
    requires
        0 <= x < width,
        0 <= x2 < width,
        0 <= y,
        0 <= y2,
        y * width + x == y2 * width + x2,
    ensures
        x == x2,
        y == y2,
{
    if y < y2 {
        assert((y + 1) * width <= y2 * width) by (nonlinear_arith)
            requires
                y + 1 <= y2,
                0 <= width,
        ;
        assert((y + 1) * width == y * width + width) by (nonlinear_arith);
    } else if y2 < y {
        assert((y2 + 1) * width <= y * width) by (nonlinear_arith)
            requires
                y2 + 1 <= y,
                0 <= width,
        ;
        assert((y2 + 1) * width == y2 * width + width) by (nonlinear_arith);
    }
}

/// After pixel `p` has been written at column `x` of row `y`, the upload
/// holds `p` at that texel and, at every other texel, the pixel that the
/// buffer held there before.
pub proof fn lemma_write_shows_in_upload(
    layer: Layer,
    pixels: Seq<Pixel>,
    p: Pixel,
    x: int,
    y: int,
    write: TextureWrite,
)
    requires
        layer.wf(),
        pixels.len() == layer.texel_count(),
        0 <= x < layer.width,
        0 <= y < layer.height,
        layer.uploads(pixels.update(y * layer.width + x, p), write),
    ensures
        texel(write.data@, write.layout, x, y) == p,
        forall|x2: int, y2: int|
            0 <= x2 < layer.width && 0 <= y2 < layer.height && !(x2 == x && y2 == y)
                ==> #[trigger] texel(write.data@, write.layout, x2, y2) == pixels[y2
                * layer.width + x2],
{
    let w = layer.width as int;
    let h = layer.height as int;
    lemma_index_in_canvas(w, h, x, y);
    let written = pixels.update(y * w + x, p);
    lemma_upload_keeps_pixels(layer, written, write, x, y);
    assert forall|x2: int, y2: int|
        0 <= x2 < layer.width && 0 <= y2 < layer.height && !(x2 == x && y2 == y)
        implies #[trigger] texel(write.data@, write.layout, x2, y2) == pixels[y2 * layer.width
        + x2] by {
        lemma_index_in_canvas(w, h, x2, y2);
        lemma_upload_keeps_pixels(layer, written, write, x2, y2);
        if y2 * w + x2 == y * w + x {
            lemma_index_tells_places_apart(w, x, y, x2, y2);
        }
    }
}

} // verus!
