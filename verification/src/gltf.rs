//! glTF binary containers (`.glb`) and the glTF document that they carry.
use vstd::prelude::*;
use vstd::utf8::{decode_utf8, valid_utf8};

verus! {

/// `glTF` in ASCII, read as a little-endian `u32`.
pub const GLB_MAGIC: u32 = 0x46546C67;

/// The container version that is accepted.
pub const GLB_VERSION: u32 = 2;

/// Type of the chunk that holds the JSON document (`JSON`).
pub const GLB_CHUNK_JSON: u32 = 0x4E4F534A;

/// Type of the chunk that holds the binary buffer (`BIN\0`).
pub const GLB_CHUNK_BIN: u32 = 0x004E4942;

/// Why a `.glb` container was refused.
#[derive(Clone, Copy, Debug, PartialEq, Eq, Structural)]
pub enum GlbError {
    /// The data ends inside a header or a chunk.
    UnexpectedEof,
    /// The file does not start with `glTF`.
    BadMagic,
    /// The container version is not 2.
    BadVersion,
    /// The length in the header is not the length of the data.
    LengthMismatch,
    /// The JSON chunk is empty.
    EmptyJsonChunk,
    /// The first chunk is not a JSON chunk.
    NotJsonChunk,
    /// The JSON chunk is not valid UTF-8.
    InvalidUtf8,
    /// The binary chunk is empty.
    EmptyBinaryChunk,
    /// The second chunk is not a binary chunk.
    NotBinaryChunk,
}

/// The little-endian `u32` stored in the four bytes of `b` from `at` on.
pub open spec fn le_u32_at(b: Seq<u8>, at: int) -> int {
    b[at] + b[at + 1] * 0x100 + b[at + 2] * 0x10000 + b[at + 3] * 0x1000000
}

/// The result of reading a `.glb` container: a 12-byte header (magic, version,
/// total length), then a JSON chunk and a binary chunk, each an 8-byte header
/// (data length, chunk type) followed by its data. Bytes after the binary
/// chunk are ignored.
pub open spec fn glb_parse(b: Seq<u8>) -> Result<(Seq<char>, Seq<u8>), GlbError> {
    let n = b.len() as int;
    if n < 12 {
        Err(GlbError::UnexpectedEof)
    } else if le_u32_at(b, 0) != GLB_MAGIC {
        Err(GlbError::BadMagic)
    } else if le_u32_at(b, 4) != GLB_VERSION {
        Err(GlbError::BadVersion)
    } else if le_u32_at(b, 8) != n {
        Err(GlbError::LengthMismatch)
    } else if n < 20 {
        Err(GlbError::UnexpectedEof)
    } else if le_u32_at(b, 12) == 0 {
        Err(GlbError::EmptyJsonChunk)
    } else if le_u32_at(b, 16) != GLB_CHUNK_JSON {
        Err(GlbError::NotJsonChunk)
    } else {
        let json_end = 20 + le_u32_at(b, 12);
        if json_end > n {
            Err(GlbError::UnexpectedEof)
        } else if !valid_utf8(b.subrange(20, json_end)) {
            Err(GlbError::InvalidUtf8)
        } else if json_end + 8 > n {
            Err(GlbError::UnexpectedEof)
        } else if le_u32_at(b, json_end) == 0 {
            Err(GlbError::EmptyBinaryChunk)
        } else if le_u32_at(b, json_end + 4) != GLB_CHUNK_BIN {
            Err(GlbError::NotBinaryChunk)
        } else {
            let bin_start = json_end + 8;
            let bin_end = bin_start + le_u32_at(b, json_end);
            if bin_end > n {
                Err(GlbError::UnexpectedEof)
            } else {
                Ok((decode_utf8(b.subrange(20, json_end)), b.subrange(bin_start, bin_end)))
            }
        }
    }
}

// The glTF document. Numbers that the document gives as floating point are
// held as the bit patterns of their `f32` values: the logic here only moves
// them around.

/// The glTF document of a `.glb` container.
#[derive(Clone, Debug)]
pub struct Gltf {
    pub accessors: Vec<Accessor>,
    pub asset: Asset,
    pub buffer_views: Vec<BufferView>,
    pub buffers: Vec<Buffer>,
    pub cameras: Vec<Camera>,
    pub images: Vec<Image>,
    pub materials: Vec<Material>,
    pub meshes: Vec<Mesh>,
    pub nodes: Vec<Node>,
    pub samplers: Vec<Sampler>,
    pub scene: usize,
    pub scenes: Vec<Scene>,
    pub textures: Vec<Texture>,
}

/// A reference to another element of the document.
#[derive(Clone, Copy, Debug, PartialEq, Eq, Structural)]
pub struct Id {
    pub index: usize,
}

/// The shape of the elements of an accessor.
#[derive(Clone, Copy, Debug, PartialEq, Eq, Structural)]
pub enum AccessorType {
    Scalar,
    Vec2,
    Vec3,
}

/// A typed view into a buffer view.
#[derive(Clone, Copy, Debug, PartialEq, Eq)]
pub struct Accessor {
    pub buffer_view: usize,
    pub component_type: u32,
    pub count: usize,
    pub ty: AccessorType,
    /// Bit patterns of the `f32` minimum.
    pub min: Option<[u32; 3]>,
    /// Bit patterns of the `f32` maximum.
    pub max: Option<[u32; 3]>,
}

/// Metadata about the document.
#[derive(Clone, Debug)]
pub struct Asset {
    pub copyright: String,
    pub generator: String,
    pub version: String,
}

/// A byte range of a buffer.
#[derive(Clone, Copy, Debug, PartialEq, Eq, Structural)]
pub struct BufferView {
    pub buffer: usize,
    pub byte_length: usize,
    pub byte_offset: usize,
    pub target: Option<u32>,
}

/// A buffer of binary data.
#[derive(Clone, Copy, Debug, PartialEq, Eq, Structural)]
pub struct Buffer {
    pub byte_length: usize,
}

/// A camera.
#[derive(Clone, Debug)]
pub struct Camera {
    pub name: String,
    pub ty: String,
    pub perspective: Perspective,
}

/// A perspective projection, as bit patterns of its `f32` parameters.
#[derive(Clone, Copy, Debug, PartialEq, Eq, Structural)]
pub struct Perspective {
    pub aspect_ratio: u32,
    pub yfov: u32,
    pub zfar: u32,
    pub znear: u32,
}

/// An image stored in a buffer view.
#[derive(Clone, Debug)]
pub struct Image {
    pub name: String,
    pub mime_type: String,
    pub buffer_view: usize,
}

/// A material.
#[derive(Clone, Debug)]
pub struct Material {
    pub name: String,
    pub pbr_metallic_roughness: PbrMetallicRoughness,
}

/// The metallic-roughness parameters of a material.
#[derive(Clone, Copy, Debug, PartialEq, Eq)]
pub struct PbrMetallicRoughness {
    pub base_color_texture: Option<Id>,
    pub base_color_factor: BaseColorFactor,
    pub metallic_factor: MetallicFactor,
    pub roughness_factor: RoughnessFactor,
}

/// Bit pattern of the `f32` value 1.0.
pub const F32_ONE_BITS: u32 = 0x3f80_0000;

/// The base color factor, as bit patterns of its four `f32` components.
#[derive(Clone, Copy, Debug, PartialEq, Eq)]
pub struct BaseColorFactor(pub [u32; 4]);

impl Default for BaseColorFactor {
    fn default() -> (f: Self)
        ensures
            f.0 == [F32_ONE_BITS, F32_ONE_BITS, F32_ONE_BITS, F32_ONE_BITS],
    {
        BaseColorFactor([F32_ONE_BITS, F32_ONE_BITS, F32_ONE_BITS, F32_ONE_BITS])
    }
}

/// The metallic factor, as the bit pattern of an `f32`.
#[derive(Clone, Copy, Debug, PartialEq, Eq, Structural)]
pub struct MetallicFactor(pub u32);

impl Default for MetallicFactor {
    fn default() -> (f: Self)
        ensures
            f.0 == F32_ONE_BITS,
    {
        MetallicFactor(F32_ONE_BITS)
    }
}

/// The roughness factor, as the bit pattern of an `f32`.
#[derive(Clone, Copy, Debug, PartialEq, Eq, Structural)]
pub struct RoughnessFactor(pub u32);

impl Default for RoughnessFactor {
    fn default() -> (f: Self)
        ensures
            f.0 == F32_ONE_BITS,
    {
        RoughnessFactor(F32_ONE_BITS)
    }
}

/// A mesh.
#[derive(Clone, Debug)]
pub struct Mesh {
    pub name: String,
    pub primitives: Vec<Primitive>,
}

/// A piece of a mesh with one material.
#[derive(Clone, Copy, Debug, PartialEq, Eq, Structural)]
pub struct Primitive {
    pub attributes: Attributes,
    pub indices: usize,
    pub material: usize,
}

/// The accessors of the vertex attributes of a primitive.
#[derive(Clone, Copy, Debug, PartialEq, Eq, Structural)]
pub struct Attributes {
    pub position: usize,
    pub texcoord_0: usize,
    pub normal: usize,
}

/// A node of the scene graph, with its translation, rotation and scale as bit
/// patterns of `f32` components.
#[derive(Clone, Debug)]
pub struct Node {
    pub name: String,
    pub camera: Option<usize>,
    pub mesh: Option<usize>,
    pub translation: Option<[u32; 3]>,
    pub rotation: Option<[u32; 4]>,
    pub scale: Option<[u32; 3]>,
}

/// A texture sampler.
#[derive(Clone, Copy, Debug, PartialEq, Eq, Structural)]
pub struct Sampler {
    pub mag_filter: u32,
    pub min_filter: u32,
}

/// A scene: the nodes at its root.
#[derive(Clone, Debug)]
pub struct Scene {
    pub name: String,
    pub nodes: Vec<usize>,
}

/// A texture: an image and a sampler.
#[derive(Clone, Copy, Debug, PartialEq, Eq, Structural)]
pub struct Texture {
    pub sampler: usize,
    pub source: usize,
}

/// Reads the little-endian `u32` at `at`.
fn read_u32_le(b: &[u8], at: usize) -> (v: u32)
    requires
        at + 4 <= b@.len(),
    ensures
        v == le_u32_at(b@, at as int),
{
    let b0 = b[at] as u32;
    let b1 = b[at + 1] as u32;
    let b2 = b[at + 2] as u32;
    let b3 = b[at + 3] as u32;
    b0 + b1 * 0x100 + b2 * 0x10000 + b3 * 0x1000000
}

/// Copies `b[start..end]` into a new vector.
fn copy_range(b: &[u8], start: usize, end: usize) -> (v: Vec<u8>)
    requires
        start <= end <= b@.len(),
    ensures
        v@ == b@.subrange(start as int, end as int),
{
    let mut v: Vec<u8> = Vec::new();
    let mut i = start;
    while i < end
        invariant
            start <= i <= end <= b@.len(),
            v@ == b@.subrange(start as int, i as int),
        decreases end - i,
    {
        v.push(b[i]);
        i += 1;
        assert(v@ =~= b@.subrange(start as int, i as int));
    }
    v
}

/// `String::from_utf8`: the bytes as a string when they are valid UTF-8.
/// Trusted: the standard library documents that it fails exactly on invalid
/// UTF-8 and otherwise keeps the bytes, so the characters are their decoding.
#[verifier::external_body]
fn string_from_utf8(bytes: Vec<u8>) -> (s: Option<String>)
    ensures
        s is Some <==> valid_utf8(bytes@),
        s matches Some(s) ==> s@ == decode_utf8(bytes@),
{
    String::from_utf8(bytes).ok()
}

/// Splits a `.glb` container into its JSON document and its binary buffer.
pub fn load_glb(glb: &[u8]) -> (res: Result<(String, Vec<u8>), GlbError>)
    ensures
        match glb_parse(glb@) {
            Ok((json, bin)) => res matches Ok((j, b)) && j@ == json && b@ == bin,
            Err(e) => res == Err::<(String, Vec<u8>), GlbError>(e),
        },
{
    let n = glb.len();
    // Header.
    if n < 12 {
        return Err(GlbError::UnexpectedEof);
    }
    let magic = read_u32_le(glb, 0);
    let version = read_u32_le(glb, 4);
    let length = read_u32_le(glb, 8);
    if magic != GLB_MAGIC {
        return Err(GlbError::BadMagic);
    }
    if version != GLB_VERSION {
        return Err(GlbError::BadVersion);
    }
    if length as usize != n {
        return Err(GlbError::LengthMismatch);
    }
    // Chunk (JSON).
    if n < 20 {
        return Err(GlbError::UnexpectedEof);
    }
    let json_length = read_u32_le(glb, 12);
    let json_type = read_u32_le(glb, 16);
    if json_length == 0 {
        return Err(GlbError::EmptyJsonChunk);
    }
    if json_type != GLB_CHUNK_JSON {
        return Err(GlbError::NotJsonChunk);
    }
    if json_length as usize > n - 20 {
        return Err(GlbError::UnexpectedEof);
    }
    let json_end = 20 + json_length as usize;
    let json_bytes = copy_range(glb, 20, json_end);
    let json = match string_from_utf8(json_bytes) {
        Some(json) => json,
        None => {
            return Err(GlbError::InvalidUtf8);
        },
    };
    // Chunk (Binary).
    if n - json_end < 8 {
        return Err(GlbError::UnexpectedEof);
    }
    let bin_length = read_u32_le(glb, json_end);
    let bin_type = read_u32_le(glb, json_end + 4);
    if bin_length == 0 {
        return Err(GlbError::EmptyBinaryChunk);
    }
    if bin_type != GLB_CHUNK_BIN {
        return Err(GlbError::NotBinaryChunk);
    }
    let bin_start = json_end + 8;
    if bin_length as usize > n - bin_start {
        return Err(GlbError::UnexpectedEof);
    }
    let bin_end = bin_start + bin_length as usize;
    let binary = copy_range(glb, bin_start, bin_end);
    Ok((json, binary))
}

} // verus!
