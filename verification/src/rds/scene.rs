//! The imported scene: cameras, meshes, materials and textures, with numbers
//! that are `f32` in the renderer held as their bit patterns.
use vstd::prelude::*;

use super::MaterialModel;

verus! {

/// Translation, rotation and scale of a node, as bit patterns of `f32`
/// components; missing parts are the identity.
#[derive(Clone, Copy, Debug, PartialEq, Eq)]
pub struct NodeTransform {
    pub translation: Option<[u32; 3]>,
    pub rotation: Option<[u32; 4]>,
    pub scale: Option<[u32; 3]>,
}

/// A perspective camera.
#[derive(Clone, Debug)]
pub struct Camera {
    pub name: String,
    pub transform: NodeTransform,
    pub aspect_ratio: u32,
    pub yfov: u32,
    pub znear: u32,
    pub zfar: u32,
}

/// A triangle mesh: vertex attributes (bit patterns of `f32` components) and
/// triangles as triples of vertex indices.
#[derive(Clone, Debug)]
pub struct Mesh {
    pub name: String,
    pub transform: NodeTransform,
    pub positions: Vec<[u32; 3]>,
    pub tex_coords: Vec<[u32; 2]>,
    pub normals: Vec<[u32; 3]>,
    pub triangles: Vec<[u32; 3]>,
    pub material: u32,
}

/// A material: its model and the index of the texture of each field.
#[derive(Clone, Debug)]
pub struct Material {
    pub name: String,
    pub model: MaterialModel,
    pub base_color: u32,
    pub metallic: u32,
    pub roughness: u32,
    pub specular: u32,
    pub specular_tint: u32,
    pub sheen: u32,
    pub sheen_tint: u32,
}

/// A texture: a constant, or an image of `components` values per pixel.
#[derive(Clone, Debug)]
pub enum Texture {
    Scalar(u32),
    Vector2([u32; 2]),
    Vector3([u32; 3]),
    Vector4([u32; 4]),
    Image { width: u32, height: u32, components: u32, pixels: Vec<u32> },
}

/// An imported scene.
#[derive(Clone, Debug)]
pub struct Scene {
    pub cameras: Vec<Camera>,
    pub meshes: Vec<Mesh>,
    pub materials: Vec<Material>,
    pub textures: Vec<Texture>,
}

/// The mathematical value of a camera.
pub struct CameraData {
    pub name: Seq<char>,
    pub transform: NodeTransform,
    pub aspect_ratio: u32,
    pub yfov: u32,
    pub znear: u32,
    pub zfar: u32,
}

/// The mathematical value of a mesh.
pub struct MeshData {
    pub name: Seq<char>,
    pub transform: NodeTransform,
    pub positions: Seq<[u32; 3]>,
    pub tex_coords: Seq<[u32; 2]>,
    pub normals: Seq<[u32; 3]>,
    pub triangles: Seq<[u32; 3]>,
    pub material: u32,
}

/// The mathematical value of a material.
pub struct MaterialData {
    pub name: Seq<char>,
    pub model: MaterialModel,
    pub base_color: u32,
    pub metallic: u32,
    pub roughness: u32,
    pub specular: u32,
    pub specular_tint: u32,
    pub sheen: u32,
    pub sheen_tint: u32,
}

/// The mathematical value of a texture.
pub enum TextureData {
    Scalar(u32),
    Vector2([u32; 2]),
    Vector3([u32; 3]),
    Vector4([u32; 4]),
    Image { width: u32, height: u32, components: u32, pixels: Seq<u32> },
}

/// The mathematical value of a scene.
pub struct SceneData {
    pub cameras: Seq<CameraData>,
    pub meshes: Seq<MeshData>,
    pub materials: Seq<MaterialData>,
    pub textures: Seq<TextureData>,
}

impl View for Camera {
    type V = CameraData;

    open spec fn view(&self) -> CameraData {
        CameraData {
            name: self.name@,
            transform: self.transform,
            aspect_ratio: self.aspect_ratio,
            yfov: self.yfov,
            znear: self.znear,
            zfar: self.zfar,
        }
    }
}

impl View for Mesh {
    type V = MeshData;

    open spec fn view(&self) -> MeshData {
        MeshData {
            name: self.name@,
            transform: self.transform,
            positions: self.positions@,
            tex_coords: self.tex_coords@,
            normals: self.normals@,
            triangles: self.triangles@,
            material: self.material,
        }
    }
}

impl View for Material {
    type V = MaterialData;

    open spec fn view(&self) -> MaterialData {
        MaterialData {
            name: self.name@,
            model: self.model,
            base_color: self.base_color,
            metallic: self.metallic,
            roughness: self.roughness,
            specular: self.specular,
            specular_tint: self.specular_tint,
            sheen: self.sheen,
            sheen_tint: self.sheen_tint,
        }
    }
}

impl View for Texture {
    type V = TextureData;

    open spec fn view(&self) -> TextureData {
        match self {
            Texture::Scalar(s) => TextureData::Scalar(*s),
            Texture::Vector2(v) => TextureData::Vector2(*v),
            Texture::Vector3(v) => TextureData::Vector3(*v),
            Texture::Vector4(v) => TextureData::Vector4(*v),
            Texture::Image { width, height, components, pixels } => TextureData::Image {
                width: *width,
                height: *height,
                components: *components,
                pixels: pixels@,
            },
        }
    }
}

impl View for Scene {
    type V = SceneData;

    open spec fn view(&self) -> SceneData {
        SceneData {
            cameras: self.cameras@.map_values(|c: Camera| c@),
            meshes: self.meshes@.map_values(|m: Mesh| m@),
            materials: self.materials@.map_values(|m: Material| m@),
            textures: self.textures@.map_values(|t: Texture| t@),
        }
    }
}

impl Mesh {
    /// The number of triangles, cut to 32 bits.
    pub fn triangle_count(&self) -> (n: u32)
        ensures
            n == self.triangles@.len() as u32,
    {
        self.triangles.len() as u32
    }

    /// The number of vertex indices of the triangles, cut to 32 bits.
    pub fn index_count(&self) -> (n: u32)
        requires
            3 * self.triangles@.len() <= usize::MAX,
        ensures
            n == (3 * self.triangles@.len()) as u32,
    {
        (3 * self.triangles.len()) as u32
    }
}

/// Bytes taken by a texture when uploaded as `f32` values.
pub open spec fn texture_byte_count(t: TextureData) -> int {
    match t {
        TextureData::Scalar(_) => 4,
        TextureData::Vector2(_) => 8,
        TextureData::Vector3(_) => 12,
        TextureData::Vector4(_) => 16,
        TextureData::Image { pixels, .. } => pixels.len() as int * 4,
    }
}

impl Texture {
    /// Bytes taken by the texture when uploaded as `f32` values.
    pub fn byte_count(&self) -> (n: usize)
        requires
            texture_byte_count(self@) <= usize::MAX,
        ensures
            n == texture_byte_count(self@),
    {
        match self {
            Texture::Scalar(_) => 4,
            Texture::Vector2(_) => 8,
            Texture::Vector3(_) => 12,
            Texture::Vector4(_) => 16,
            Texture::Image { pixels, .. } => pixels.len() * 4,
        }
    }
}

/// The value of an image texel, or of a constant texture, as RGBA bit
/// patterns: the components that the texture holds, then zeros.
pub open spec fn texel_of(pixels: Seq<u32>, components: int, offset: int) -> [u32; 4] {
    [
        if components > 0 { pixels[offset] } else { 0 },
        if components > 1 { pixels[offset + 1] } else { 0 },
        if components > 2 { pixels[offset + 2] } else { 0 },
        if components > 3 { pixels[offset + 3] } else { 0 },
    ]
}

/// The column or row of the texel that a cell coordinate falls in: the last
/// one for coordinates past the edge.
pub open spec fn clamp_cell(c: int, size: int) -> int {
    if c < size { c } else { size - 1 }
}

/// What `Texture::sample_cell` gives for cell `(x, y)`.
pub open spec fn spec_sample_cell(t: TextureData, x: int, y: int) -> [u32; 4] {
    match t {
        TextureData::Scalar(s) => [s, 0, 0, 0],
        TextureData::Vector2(v) => [v[0], v[1], 0, 0],
        TextureData::Vector3(v) => [v[0], v[1], v[2], 0],
        TextureData::Vector4(v) => [v[0], v[1], v[2], v[3]],
        TextureData::Image { width, height, components, pixels } => texel_of(
            pixels,
            components as int,
            components * (clamp_cell(y, height as int) * width + clamp_cell(x, width as int)),
        ),
    }
}

/// An image holds a texel of `components` (at most four) values for each of
/// its `width * height` pixels, and has at least one pixel.
pub open spec fn image_is_valid(t: TextureData) -> bool {
    match t {
        TextureData::Image { width, height, components, pixels } => {
            &&& width > 0
            &&& height > 0
            &&& components <= 4
            &&& width * height <= usize::MAX
            &&& components * (width * height) <= pixels.len()
        },
        _ => true,
    }
}

proof fn lemma_texel_in_image(x: int, y: int, width: int, height: int, components: int)
    requires
        0 <= x < width,
        0 <= y < height,
        0 <= components,
    ensures
        0 <= components * (y * width + x),
        components * (y * width + x) + components <= components * (width * height),
{
    assert(y * width + x + 1 <= width * height) by (nonlinear_arith)
        requires 0 <= x < width, 0 <= y < height;
    assert(components * (y * width + x) + components <= components * (width * height)) by (nonlinear_arith)
        requires y * width + x + 1 <= width * height, 0 <= components;
    assert(0 <= components * (y * width + x)) by (nonlinear_arith)
        requires 0 <= x, 0 <= y, 0 <= width, 0 <= components;
}

impl Texture {
    /// The value of the texture at texel column `x` and row `y`, the
    /// coordinates clamped to the image; constant textures have the same
    /// value everywhere.
    pub fn sample_cell(&self, x: usize, y: usize) -> (rgba: [u32; 4])
        requires
            image_is_valid(self@),
        ensures
            rgba == spec_sample_cell(self@, x as int, y as int),
    {
        match self {
            Texture::Scalar(s) => [*s, 0, 0, 0],
            Texture::Vector2(v) => [v[0], v[1], 0, 0],
            Texture::Vector3(v) => [v[0], v[1], v[2], 0],
            Texture::Vector4(v) => [v[0], v[1], v[2], v[3]],
            Texture::Image { width, height, components, pixels } => {
                let width = *width as usize;
                let height = *height as usize;
                let components = *components as usize;
                let x = if x < width { x } else { width - 1 };
                let y = if y < height { y } else { height - 1 };
                proof {
                    lemma_texel_in_image(x as int, y as int, width as int, height as int, components as int);
                    assert(y * width + x < width * height) by (nonlinear_arith)
                        requires x < width, y < height;
                    assert(y * width <= y * width + x);
                }
                let n = pixels.len();
                assert(components * (y * width + x) + components <= n);
                let offset = components * (y * width + x);
                let mut sample: [u32; 4] = [0, 0, 0, 0];
                let mut i: usize = 0;
                while i < components
                    invariant
                        i <= components <= 4,
                        offset + components <= pixels@.len(),
                        pixels@.len() == n,
                        forall|k: int| 0 <= k < i ==> sample[k] == pixels@[offset + k],
                        forall|k: int| i <= k < 4 ==> sample[k] == 0,
                    decreases components - i,
                {
                    sample[i] = pixels[offset + i];
                    i += 1;
                }
                assert(sample == texel_of(pixels@, components as int, offset as int));
                sample
            },
        }
    }
}

/// Law: a constant texture gives its components in order, then zeros, at
/// every cell.
pub proof fn lemma_constant_texture_samples(t: TextureData, x: int, y: int)
    ensures
        t matches TextureData::Scalar(v) ==> spec_sample_cell(t, x, y) == [v, 0u32, 0u32, 0u32],
        t matches TextureData::Vector2(v) ==> spec_sample_cell(t, x, y) == [v[0], v[1], 0u32, 0u32],
        t matches TextureData::Vector3(v) ==> spec_sample_cell(t, x, y) == [v[0], v[1], v[2], 0u32],
        t matches TextureData::Vector4(v) ==> spec_sample_cell(t, x, y) == [v[0], v[1], v[2], v[3]],
{
}

/// Law: a cell of an image inside it gives the values of its texel, stored
/// row by row with `components` values per texel, in order, then zeros; a
/// cell past the right or bottom edge gives the texel of the last column or
/// row.
pub proof fn lemma_image_texel_samples(t: TextureData, x: int, y: int, c: int)
    requires
        t is Image,
        image_is_valid(t),
        0 <= x,
        0 <= y,
        0 <= c < 4,
    ensures
        ({
            let w = t->Image_width as int;
            let h = t->Image_height as int;
            let n = t->Image_components as int;
            let p = t->Image_pixels;
            &&& x < w && y < h && c < n ==> spec_sample_cell(t, x, y)[c] == p[n * (y * w + x) + c]
            &&& c >= n ==> spec_sample_cell(t, x, y)[c] == 0
            &&& x >= w ==> spec_sample_cell(t, x, y) == spec_sample_cell(t, w - 1, y)
            &&& y >= h ==> spec_sample_cell(t, x, y) == spec_sample_cell(t, x, h - 1)
        }),
{
}

} // verus!
