//! Building the renderer's scene from a glTF document and its binary buffer.
use vstd::prelude::*;

use super::dynamic::{DynamicMaterial, DynamicScene, DynamicTexture, TextureFlags, texture_flag_bits};
use super::scene::{
    Camera, CameraData, Material, MaterialData, Mesh, MeshData, NodeTransform, Scene, SceneData,
    Texture, TextureData,
};
use super::MaterialModel;
use crate::gltf::{le_u32_at, AccessorType, Gltf, PbrMetallicRoughness, Primitive, F32_ONE_BITS};
use crate::gltf;
use crate::text::str_eq;

verus! {

/// The vertex data read from accessors.
#[derive(Clone, Copy, Debug, PartialEq, Eq, Structural)]
pub enum Attribute {
    Positions,
    TexCoords,
    Normals,
    Indices,
}

/// Why a glTF document was refused.
#[derive(Clone, Copy, Debug, PartialEq, Eq, Structural)]
pub enum ImportError {
    /// A camera is not a perspective camera.
    NotPerspective,
    /// A mesh does not have exactly one primitive.
    PrimitiveCount,
    /// A base color image is not a PNG image that can be decoded.
    ImageDecode,
    /// A base color image is not a power of two wide.
    ImageWidthNotPowerOfTwo,
    /// A base color image is not a power of two high.
    ImageHeightNotPowerOfTwo,
    /// The accessor of an attribute has the wrong shape.
    WrongAccessorType(Attribute),
    /// The buffer view of an attribute is empty.
    EmptyAttribute(Attribute),
    /// The buffer view of an attribute does not hold whole elements.
    BadAttributeLength(Attribute),
    /// The mesh at `index` has the name of an earlier mesh.
    DuplicateMeshName(usize),
    /// The material at `index` has the name of an earlier material.
    DuplicateMaterialName(usize),
}

/// glTF component type of `u16` indices.
pub const UNSIGNED_SHORT: u32 = 5123;

/// glTF component type of `u32` indices.
pub const UNSIGNED_INT: u32 = 5125;

/// The little-endian `u16` stored in the two bytes of `b` from `at` on.
pub open spec fn le_u16_at(b: Seq<u8>, at: int) -> int {
    b[at] + b[at + 1] * 0x100
}

/// Consecutive little-endian `u32` triples.
pub open spec fn decode_u32_triples(b: Seq<u8>) -> Seq<[u32; 3]> {
    Seq::new(
        (b.len() / 12) as nat,
        |i: int|
            [
                le_u32_at(b, 12 * i) as u32,
                le_u32_at(b, 12 * i + 4) as u32,
                le_u32_at(b, 12 * i + 8) as u32,
            ],
    )
}

/// Consecutive little-endian `u32` pairs.
pub open spec fn decode_u32_pairs(b: Seq<u8>) -> Seq<[u32; 2]> {
    Seq::new(
        (b.len() / 8) as nat,
        |i: int| [le_u32_at(b, 8 * i) as u32, le_u32_at(b, 8 * i + 4) as u32],
    )
}

/// Consecutive little-endian `u16` triples, widened to `u32`.
pub open spec fn decode_u16_triples(b: Seq<u8>) -> Seq<[u32; 3]> {
    Seq::new(
        (b.len() / 6) as nat,
        |i: int|
            [
                le_u16_at(b, 6 * i) as u32,
                le_u16_at(b, 6 * i + 2) as u32,
                le_u16_at(b, 6 * i + 4) as u32,
            ],
    )
}

/// The outcome of an import step: `None` where the step would index out of
/// range or reinterpret a byte range of the wrong size.
pub type Outcome<T> = Option<Result<T, ImportError>>;

/// The bytes of a vertex attribute read through accessor `acc_index`, which
/// must have shape `ty` and whose buffer view must hold whole elements of
/// `elem` bytes.
pub open spec fn spec_attribute_bytes(
    gltf: Gltf,
    data: Seq<u8>,
    acc_index: usize,
    attr: Attribute,
    ty: AccessorType,
    elem: int,
) -> Outcome<Seq<u8>> {
    if acc_index >= gltf.accessors.len() {
        None
    } else {
        let acc = gltf.accessors[acc_index as int];
        if acc.ty != ty {
            Some(Err(ImportError::WrongAccessorType(attr)))
        } else if acc.buffer_view >= gltf.buffer_views.len() {
            None
        } else {
            let view = gltf.buffer_views[acc.buffer_view as int];
            let offset = view.byte_offset as int;
            let length = view.byte_length as int;
            if length == 0 {
                Some(Err(ImportError::EmptyAttribute(attr)))
            } else if length % elem != 0 {
                Some(Err(ImportError::BadAttributeLength(attr)))
            } else if offset + length > data.len() {
                None
            } else {
                Some(Ok(data.subrange(offset, offset + length)))
            }
        }
    }
}

/// Vertex positions of a primitive: `f32` triples.
pub open spec fn spec_import_positions(gltf: Gltf, data: Seq<u8>, prim: Primitive) -> Outcome<
    Seq<[u32; 3]>,
> {
    match spec_attribute_bytes(
        gltf,
        data,
        prim.attributes.position,
        Attribute::Positions,
        AccessorType::Vec3,
        12,
    ) {
        Some(Ok(b)) => Some(Ok(decode_u32_triples(b))),
        Some(Err(e)) => Some(Err(e)),
        None => None,
    }
}

/// Texture coordinates of a primitive: `f32` pairs.
pub open spec fn spec_import_tex_coords(gltf: Gltf, data: Seq<u8>, prim: Primitive) -> Outcome<
    Seq<[u32; 2]>,
> {
    match spec_attribute_bytes(
        gltf,
        data,
        prim.attributes.texcoord_0,
        Attribute::TexCoords,
        AccessorType::Vec2,
        8,
    ) {
        Some(Ok(b)) => Some(Ok(decode_u32_pairs(b))),
        Some(Err(e)) => Some(Err(e)),
        None => None,
    }
}

/// Vertex normals of a primitive: `f32` triples.
pub open spec fn spec_import_normals(gltf: Gltf, data: Seq<u8>, prim: Primitive) -> Outcome<
    Seq<[u32; 3]>,
> {
    match spec_attribute_bytes(
        gltf,
        data,
        prim.attributes.normal,
        Attribute::Normals,
        AccessorType::Vec3,
        12,
    ) {
        Some(Ok(b)) => Some(Ok(decode_u32_triples(b))),
        Some(Err(e)) => Some(Err(e)),
        None => None,
    }
}

/// Triangles of a primitive: triples of `u16` or `u32` vertex indices. The
/// length check asks for a multiple of three bytes only; a view of `u16`
/// indices with an odd length, or of `u32` indices whose length is not a
/// multiple of twelve, cannot be reinterpreted, nor can another component
/// type.
pub open spec fn spec_import_triangles(gltf: Gltf, data: Seq<u8>, prim: Primitive) -> Outcome<
    Seq<[u32; 3]>,
> {
    let acc_index = prim.indices;
    if acc_index >= gltf.accessors.len() {
        None
    } else {
        let acc = gltf.accessors[acc_index as int];
        if acc.ty != AccessorType::Scalar {
            Some(Err(ImportError::WrongAccessorType(Attribute::Indices)))
        } else if acc.buffer_view >= gltf.buffer_views.len() {
            None
        } else {
            let view = gltf.buffer_views[acc.buffer_view as int];
            let offset = view.byte_offset as int;
            let length = view.byte_length as int;
            if length == 0 {
                Some(Err(ImportError::EmptyAttribute(Attribute::Indices)))
            } else if offset + length > data.len() {
                None
            } else {
                let b = data.subrange(offset, offset + length);
                if acc.component_type == UNSIGNED_SHORT {
                    if length % 3 != 0 {
                        Some(Err(ImportError::BadAttributeLength(Attribute::Indices)))
                    } else if length % 2 != 0 {
                        None
                    } else {
                        Some(Ok(decode_u16_triples(b)))
                    }
                } else if acc.component_type == UNSIGNED_INT {
                    if length % 3 != 0 {
                        Some(Err(ImportError::BadAttributeLength(Attribute::Indices)))
                    } else if length % 12 != 0 {
                        None
                    } else {
                        Some(Ok(decode_u32_triples(b)))
                    }
                } else {
                    None
                }
            }
        }
    }
}

/// Reads the little-endian `u32` at `at`.
fn read_u32_le(b: &[u8], at: usize) -> (v: u32)
    requires
        at + 4 <= b@.len(),
    ensures
        v == le_u32_at(b@, at as int),
{
    let b0 = b[at] as u32;
    let b1 = b[at + 1] as u32;
    let b2 = b[at + 2] as u32;
    let b3 = b[at + 3] as u32;
    b0 + b1 * 0x100 + b2 * 0x10000 + b3 * 0x1000000
}

/// Reads the little-endian `u16` at `at`, widened.
fn read_u16_le(b: &[u8], at: usize) -> (v: u32)
    requires
        at + 2 <= b@.len(),
    ensures
        v == le_u16_at(b@, at as int),
{
    let b0 = b[at] as u32;
    let b1 = b[at + 1] as u32;
    b0 + b1 * 0x100
}

/// Decodes `data[offset..offset + length]` as `u32` triples.
fn decode_u32_triples_at(data: &[u8], offset: usize, length: usize) -> (v: Vec<[u32; 3]>)
    requires
        offset + length <= data@.len(),
        length % 12 == 0,
    ensures
        v@ == decode_u32_triples(data@.subrange(offset as int, offset + length)),
{
    let ghost b = data@.subrange(offset as int, offset + length);
    let mut v: Vec<[u32; 3]> = Vec::new();
    let count = length / 12;
    let n = data.len();
    let mut i: usize = 0;
    while i < count
        invariant
            n == data@.len(),
            offset + length <= data@.len(),
            count == length / 12,
            length % 12 == 0,
            b == data@.subrange(offset as int, offset + length),
            0 <= i <= count,
            v@ =~= decode_u32_triples(b).take(i as int),
        decreases count - i,
    {
        assert(12 * i + 12 <= length) by (nonlinear_arith)
            requires i < count, count == length / 12;
        let at = offset + 12 * i;
        let t = [read_u32_le(data, at), read_u32_le(data, at + 4), read_u32_le(data, at + 8)];
        assert(t == decode_u32_triples(b)[i as int]) by {
            assert(le_u32_at(b, 12 * i) == le_u32_at(data@, at as int));
            assert(le_u32_at(b, 12 * i + 4) == le_u32_at(data@, at + 4));
            assert(le_u32_at(b, 12 * i + 8) == le_u32_at(data@, at + 8));
        }
        v.push(t);
        i += 1;
    }
    v
}

/// Decodes `data[offset..offset + length]` as `u32` pairs.
fn decode_u32_pairs_at(data: &[u8], offset: usize, length: usize) -> (v: Vec<[u32; 2]>)
    requires
        offset + length <= data@.len(),
        length % 8 == 0,
    ensures
        v@ == decode_u32_pairs(data@.subrange(offset as int, offset + length)),
{
    let ghost b = data@.subrange(offset as int, offset + length);
    let mut v: Vec<[u32; 2]> = Vec::new();
    let count = length / 8;
    let n = data.len();
    let mut i: usize = 0;
    while i < count
        invariant
            n == data@.len(),
            offset + length <= data@.len(),
            count == length / 8,
            length % 8 == 0,
            b == data@.subrange(offset as int, offset + length),
            0 <= i <= count,
            v@ =~= decode_u32_pairs(b).take(i as int),
        decreases count - i,
    {
        assert(8 * i + 8 <= length) by (nonlinear_arith)
            requires i < count, count == length / 8;
        let at = offset + 8 * i;
        let t = [read_u32_le(data, at), read_u32_le(data, at + 4)];
        assert(t == decode_u32_pairs(b)[i as int]) by {
            assert(le_u32_at(b, 8 * i) == le_u32_at(data@, at as int));
            assert(le_u32_at(b, 8 * i + 4) == le_u32_at(data@, at + 4));
        }
        v.push(t);
        i += 1;
    }
    v
}

/// Decodes `data[offset..offset + length]` as `u16` triples.
fn decode_u16_triples_at(data: &[u8], offset: usize, length: usize) -> (v: Vec<[u32; 3]>)
    requires
        offset + length <= data@.len(),
        length % 6 == 0,
    ensures
        v@ == decode_u16_triples(data@.subrange(offset as int, offset + length)),
{
    let ghost b = data@.subrange(offset as int, offset + length);
    let mut v: Vec<[u32; 3]> = Vec::new();
    let count = length / 6;
    let n = data.len();
    let mut i: usize = 0;
    while i < count
        invariant
            n == data@.len(),
            offset + length <= data@.len(),
            count == length / 6,
            length % 6 == 0,
            b == data@.subrange(offset as int, offset + length),
            0 <= i <= count,
            v@ =~= decode_u16_triples(b).take(i as int),
        decreases count - i,
    {
        assert(6 * i + 6 <= length) by (nonlinear_arith)
            requires i < count, count == length / 6;
        let at = offset + 6 * i;
        let t = [read_u16_le(data, at), read_u16_le(data, at + 2), read_u16_le(data, at + 4)];
        assert(t == decode_u16_triples(b)[i as int]) by {
            assert(le_u16_at(b, 6 * i) == le_u16_at(data@, at as int));
            assert(le_u16_at(b, 6 * i + 2) == le_u16_at(data@, at + 2));
            assert(le_u16_at(b, 6 * i + 4) == le_u16_at(data@, at + 4));
        }
        v.push(t);
        i += 1;
    }
    v
}


/// The import outcome `res` agrees with the expected one: the same error, or
/// a value whose view is the expected value, or both nothing.
pub open spec fn outcome_matches<T: View>(res: Option<Result<T, ImportError>>, expected: Outcome<T::V>) -> bool {
    match expected {
        None => res is None,
        Some(Err(e)) => res matches Some(Err(e2)) && e2 == e,
        Some(Ok(v)) => res matches Some(Ok(r)) && r@ == v,
    }
}

/// Reads the byte range of a vertex attribute, checking it as
/// `spec_attribute_bytes` says.
fn attribute_range(
    gltf: &Gltf,
    data: &[u8],
    acc_index: usize,
    attr: Attribute,
    ty: AccessorType,
    elem: usize,
) -> (res: Option<Result<(usize, usize), ImportError>>)
    requires
        elem > 0,
    ensures
        match spec_attribute_bytes(*gltf, data@, acc_index, attr, ty, elem as int) {
            None => res is None,
            Some(Err(e)) => res == Some(Err::<(usize, usize), ImportError>(e)),
            Some(Ok(b)) => res matches Some(Ok((offset, length))) && offset + length <= data@.len()
                && b == data@.subrange(offset as int, offset + length) && length % elem == 0,
        },
{
    if acc_index >= gltf.accessors.len() {
        return None;
    }
    let acc = &gltf.accessors[acc_index];
    if acc.ty != ty {
        return Some(Err(ImportError::WrongAccessorType(attr)));
    }
    if acc.buffer_view >= gltf.buffer_views.len() {
        return None;
    }
    let view = &gltf.buffer_views[acc.buffer_view];
    let offset = view.byte_offset;
    let length = view.byte_length;
    if length == 0 {
        return Some(Err(ImportError::EmptyAttribute(attr)));
    }
    if length % elem != 0 {
        return Some(Err(ImportError::BadAttributeLength(attr)));
    }
    if offset > data.len() || length > data.len() - offset {
        return None;
    }
    Some(Ok((offset, length)))
}

/// Vertex positions of a primitive, as `spec_import_positions` says.
pub fn import_gltf_positions(gltf: &Gltf, prim: &Primitive, data: &[u8]) -> (res: Option<
    Result<Vec<[u32; 3]>, ImportError>,
>)
    ensures
        outcome_matches(res, spec_import_positions(*gltf, data@, *prim)),
{
    match attribute_range(
        gltf,
        data,
        prim.attributes.position,
        Attribute::Positions,
        AccessorType::Vec3,
        12,
    ) {
        None => None,
        Some(Err(e)) => Some(Err(e)),
        Some(Ok((offset, length))) => Some(Ok(decode_u32_triples_at(data, offset, length))),
    }
}

/// Texture coordinates of a primitive, as `spec_import_tex_coords` says.
pub fn import_gltf_tex_coords(gltf: &Gltf, prim: &Primitive, data: &[u8]) -> (res: Option<
    Result<Vec<[u32; 2]>, ImportError>,
>)
    ensures
        outcome_matches(res, spec_import_tex_coords(*gltf, data@, *prim)),
{
    match attribute_range(
        gltf,
        data,
        prim.attributes.texcoord_0,
        Attribute::TexCoords,
        AccessorType::Vec2,
        8,
    ) {
        None => None,
        Some(Err(e)) => Some(Err(e)),
        Some(Ok((offset, length))) => Some(Ok(decode_u32_pairs_at(data, offset, length))),
    }
}

/// Vertex normals of a primitive, as `spec_import_normals` says.
pub fn import_gltf_normals(gltf: &Gltf, prim: &Primitive, data: &[u8]) -> (res: Option<
    Result<Vec<[u32; 3]>, ImportError>,
>)
    ensures
        outcome_matches(res, spec_import_normals(*gltf, data@, *prim)),
{
    match attribute_range(
        gltf,
        data,
        prim.attributes.normal,
        Attribute::Normals,
        AccessorType::Vec3,
        12,
    ) {
        None => None,
        Some(Err(e)) => Some(Err(e)),
        Some(Ok((offset, length))) => Some(Ok(decode_u32_triples_at(data, offset, length))),
    }
}

/// Triangles of a primitive, as `spec_import_triangles` says.
pub fn import_gltf_triangles(gltf: &Gltf, prim: &Primitive, data: &[u8]) -> (res: Option<
    Result<Vec<[u32; 3]>, ImportError>,
>)
    ensures
        outcome_matches(res, spec_import_triangles(*gltf, data@, *prim)),
{
    let acc_index = prim.indices;
    if acc_index >= gltf.accessors.len() {
        return None;
    }
    let acc = &gltf.accessors[acc_index];
    if acc.ty != AccessorType::Scalar {
        return Some(Err(ImportError::WrongAccessorType(Attribute::Indices)));
    }
    if acc.buffer_view >= gltf.buffer_views.len() {
        return None;
    }
    let view = &gltf.buffer_views[acc.buffer_view];
    let offset = view.byte_offset;
    let length = view.byte_length;
    if length == 0 {
        return Some(Err(ImportError::EmptyAttribute(Attribute::Indices)));
    }
    if offset > data.len() || length > data.len() - offset {
        return None;
    }
    if acc.component_type == UNSIGNED_SHORT {
        if length % 3 != 0 {
            return Some(Err(ImportError::BadAttributeLength(Attribute::Indices)));
        }
        if length % 2 != 0 {
            return None;
        }
        Some(Ok(decode_u16_triples_at(data, offset, length)))
    } else if acc.component_type == UNSIGNED_INT {
        if length % 3 != 0 {
            return Some(Err(ImportError::BadAttributeLength(Attribute::Indices)));
        }
        if length % 12 != 0 {
            return None;
        }
        Some(Ok(decode_u32_triples_at(data, offset, length)))
    } else {
        None
    }
}


/// Bit pattern of the `f32` value 0.5.
pub const F32_HALF_BITS: u32 = 0x3f00_0000;

/// The image decoded from PNG bytes as RGBA `f32` pixels (bit patterns):
/// width, height and the pixel values row by row, or nothing when the bytes
/// are not a PNG image that can be decoded.
pub uninterp spec fn png_rgba32f(bytes: Seq<u8>) -> Option<(u32, u32, Seq<u32>)>;

/// `image::load_from_memory_with_format` with the PNG format, converted to
/// RGBA `f32` pixels (`DynamicImage::into_rgba32f`). Trusted: the result
/// depends on the bytes alone, and a decoded image holds four values per
/// pixel.
#[verifier::external_body]
fn decode_png_rgba32f(bytes: &[u8]) -> (res: Option<(u32, u32, Vec<u32>)>)
    ensures
        match res {
            Some((w, h, p)) => png_rgba32f(bytes@) == Some((w, h, p@)) && p@.len() == 4 * w * h,
            None => png_rgba32f(bytes@) is None,
        },
{
    match image::load_from_memory_with_format(bytes, image::ImageFormat::Png) {
        Ok(decoded) => {
            let rgba = decoded.into_rgba32f();
            let (w, h) = (rgba.width(), rgba.height());
            Some((w, h, rgba.into_raw().into_iter().map(|v| v.to_bits()).collect()))
        },
        Err(_) => None,
    }
}

/// `x` is a power of two.
pub open spec fn is_power_of_two(x: nat) -> bool
    decreases x,
{
    if x == 1 {
        true
    } else if x == 0 || x % 2 == 1 {
        false
    } else {
        is_power_of_two(x / 2)
    }
}

/// Whether `x` is a power of two.
fn u32_is_power_of_two(x: u32) -> (b: bool)
    ensures
        b == is_power_of_two(x as nat),
{
    let mut y = x;
    while y != 1 && y != 0 && y % 2 == 0
        invariant
            is_power_of_two(y as nat) == is_power_of_two(x as nat),
        decreases y,
    {
        y = y / 2;
    }
    y == 1
}

/// The base color texture of a material: the image that it names, decoded,
/// which must be a power of two wide and high; or else the constant base color
/// factor.
pub open spec fn spec_import_base_color(gltf: Gltf, data: Seq<u8>, pbr: PbrMetallicRoughness) -> Outcome<
    TextureData,
> {
    match pbr.base_color_texture {
        None => Some(Ok(TextureData::Vector4(pbr.base_color_factor.0))),
        Some(id) => {
            if id.index >= gltf.textures.len() {
                None
            } else {
                let texture = gltf.textures[id.index as int];
                if texture.source >= gltf.images.len() {
                    None
                } else {
                    let image = gltf.images[texture.source as int];
                    if image.buffer_view >= gltf.buffer_views.len() {
                        None
                    } else {
                        let view = gltf.buffer_views[image.buffer_view as int];
                        let offset = view.byte_offset as int;
                        let end = offset + view.byte_length;
                        if end > data.len() {
                            None
                        } else {
                            match png_rgba32f(data.subrange(offset, end)) {
                                None => Some(Err(ImportError::ImageDecode)),
                                Some((w, h, pixels)) => {
                                    if !is_power_of_two(w as nat) {
                                        Some(Err(ImportError::ImageWidthNotPowerOfTwo))
                                    } else if !is_power_of_two(h as nat) {
                                        Some(Err(ImportError::ImageHeightNotPowerOfTwo))
                                    } else {
                                        Some(
                                            Ok(
                                                TextureData::Image {
                                                    width: w,
                                                    height: h,
                                                    components: 4,
                                                    pixels,
                                                },
                                            ),
                                        )
                                    }
                                },
                            }
                        }
                    }
                }
            }
        },
    }
}

/// The seven textures that importing a material appends: base color,
/// metallic, roughness, specular (0.5), specular tint (0), sheen (0), sheen
/// tint (0.5).
pub open spec fn material_textures(base_color: TextureData, pbr: PbrMetallicRoughness) -> Seq<TextureData> {
    seq![
        base_color,
        TextureData::Scalar(pbr.metallic_factor.0),
        TextureData::Scalar(pbr.roughness_factor.0),
        TextureData::Scalar(F32_HALF_BITS),
        TextureData::Scalar(0),
        TextureData::Scalar(0),
        TextureData::Scalar(F32_HALF_BITS),
    ]
}

/// The material of a primitive, given that `first_texture` textures were
/// imported before it: a Disney material whose fields use the seven textures
/// that follow, in field order.
pub open spec fn spec_import_material(gltf: Gltf, data: Seq<u8>, prim: Primitive, first_texture: nat) -> Outcome<
    (MaterialData, Seq<TextureData>),
> {
    if prim.material >= gltf.materials.len() {
        None
    } else {
        let m = gltf.materials[prim.material as int];
        let pbr = m.pbr_metallic_roughness;
        match spec_import_base_color(gltf, data, pbr) {
            None => None,
            Some(Err(e)) => Some(Err(e)),
            Some(Ok(base_color)) => {
                let t = first_texture;
                Some(
                    Ok(
                        (
                            MaterialData {
                                name: m.name@,
                                model: MaterialModel::Disney,
                                base_color: t as u32,
                                metallic: (t + 1) as u32,
                                roughness: (t + 2) as u32,
                                specular: (t + 3) as u32,
                                specular_tint: (t + 4) as u32,
                                sheen: (t + 5) as u32,
                                sheen_tint: (t + 6) as u32,
                            },
                            material_textures(base_color, pbr),
                        ),
                    ),
                )
            },
        }
    }
}

/// Imports the base color texture, as `spec_import_base_color` says.
fn import_base_color(gltf: &Gltf, data: &[u8], pbr: &PbrMetallicRoughness) -> (res: Option<
    Result<Texture, ImportError>,
>)
    ensures
        outcome_matches(res, spec_import_base_color(*gltf, data@, *pbr)),
{
    match &pbr.base_color_texture {
        None => Some(Ok(Texture::Vector4(pbr.base_color_factor.0))),
        Some(id) => {
            if id.index >= gltf.textures.len() {
                return None;
            }
            let texture = &gltf.textures[id.index];
            if texture.source >= gltf.images.len() {
                return None;
            }
            let image = &gltf.images[texture.source];
            if image.buffer_view >= gltf.buffer_views.len() {
                return None;
            }
            let view = &gltf.buffer_views[image.buffer_view];
            let offset = view.byte_offset;
            let length = view.byte_length;
            if offset > data.len() || length > data.len() - offset {
                return None;
            }
            let bytes = copy_bytes(data, offset, offset + length);
            match decode_png_rgba32f(bytes.as_slice()) {
                None => Some(Err(ImportError::ImageDecode)),
                Some((width, height, pixels)) => {
                    if !u32_is_power_of_two(width) {
                        return Some(Err(ImportError::ImageWidthNotPowerOfTwo));
                    }
                    if !u32_is_power_of_two(height) {
                        return Some(Err(ImportError::ImageHeightNotPowerOfTwo));
                    }
                    Some(Ok(Texture::Image { width, height, components: 4, pixels }))
                },
            }
        },
    }
}

/// Copies `b[start..end]` into a new vector.
fn copy_bytes(b: &[u8], start: usize, end: usize) -> (v: Vec<u8>)
    requires
        start <= end <= b@.len(),
    ensures
        v@ == b@.subrange(start as int, end as int),
{
    let mut v: Vec<u8> = Vec::new();
    let mut i = start;
    while i < end
        invariant
            start <= i <= end <= b@.len(),
            v@ == b@.subrange(start as int, i as int),
        decreases end - i,
    {
        v.push(b[i]);
        i += 1;
        assert(v@ =~= b@.subrange(start as int, i as int));
    }
    v
}

/// Imports the material of a primitive and appends its textures to
/// `textures`, as `spec_import_material` says; returns the material.
pub fn import_gltf_material(
    gltf: &Gltf,
    prim: &Primitive,
    data: &[u8],
    textures: &mut Vec<Texture>,
) -> (res: Option<Result<Material, ImportError>>)
    requires
        old(textures)@.len() + 7 <= u32::MAX,
    ensures
        match spec_import_material(*gltf, data@, *prim, old(textures)@.len()) {
            None => res is None,
            Some(Err(e)) => res == Some(Err::<Material, ImportError>(e)),
            Some(Ok((m, ts))) => res matches Some(Ok(r)) && r@ == m && final(textures)@.map_values(
                |t: Texture| t@,
            ) == old(textures)@.map_values(|t: Texture| t@) + ts,
        },
        !(res matches Some(Ok(_))) ==> final(textures)@ == old(textures)@,
{
    if prim.material >= gltf.materials.len() {
        return None;
    }
    let gltf_material = &gltf.materials[prim.material];
    let name = gltf_material.name.clone();
    let pbr = &gltf_material.pbr_metallic_roughness;
    let base_color = match import_base_color(gltf, data, pbr) {
        None => {
            return None;
        },
        Some(Err(e)) => {
            return Some(Err(e));
        },
        Some(Ok(t)) => t,
    };
    let ghost base_view = base_color@;
    let ghost before = textures@.map_values(|t: Texture| t@);
    let base_color_index = textures.len() as u32;
    textures.push(base_color);
    let metallic_index = textures.len() as u32;
    textures.push(Texture::Scalar(pbr.metallic_factor.0));
    let roughness_index = textures.len() as u32;
    textures.push(Texture::Scalar(pbr.roughness_factor.0));
    let specular_index = textures.len() as u32;
    textures.push(Texture::Scalar(F32_HALF_BITS));
    let specular_tint_index = textures.len() as u32;
    textures.push(Texture::Scalar(0));
    let sheen_index = textures.len() as u32;
    textures.push(Texture::Scalar(0));
    let sheen_tint_index = textures.len() as u32;
    textures.push(Texture::Scalar(F32_HALF_BITS));
    assert(textures@.map_values(|t: Texture| t@) =~= before + material_textures(base_view, *pbr));
    Some(
        Ok(
            Material {
                name,
                model: MaterialModel::Disney,
                base_color: base_color_index,
                metallic: metallic_index,
                roughness: roughness_index,
                specular: specular_index,
                specular_tint: specular_tint_index,
                sheen: sheen_index,
                sheen_tint: sheen_tint_index,
            },
        ),
    )
}


/// The transform of a node.
pub open spec fn node_transform(node: gltf::Node) -> NodeTransform {
    NodeTransform { translation: node.translation, rotation: node.rotation, scale: node.scale }
}

/// A mesh node: its only primitive gives a material (numbered
/// `first_material`, its textures numbered from `first_texture` on), then
/// positions, texture coordinates, normals and triangles, each step failing
/// the import when it fails.
pub open spec fn spec_import_mesh(
    gltf: Gltf,
    data: Seq<u8>,
    mesh: gltf::Mesh,
    node: gltf::Node,
    first_material: nat,
    first_texture: nat,
) -> Outcome<(MeshData, MaterialData, Seq<TextureData>)> {
    if mesh.primitives.len() != 1 {
        Some(Err(ImportError::PrimitiveCount))
    } else {
        let prim = mesh.primitives[0];
        match spec_import_material(gltf, data, prim, first_texture) {
            None => None,
            Some(Err(e)) => Some(Err(e)),
            Some(Ok((material, textures))) => match spec_import_positions(gltf, data, prim) {
                None => None,
                Some(Err(e)) => Some(Err(e)),
                Some(Ok(positions)) => match spec_import_tex_coords(gltf, data, prim) {
                    None => None,
                    Some(Err(e)) => Some(Err(e)),
                    Some(Ok(tex_coords)) => match spec_import_normals(gltf, data, prim) {
                        None => None,
                        Some(Err(e)) => Some(Err(e)),
                        Some(Ok(normals)) => match spec_import_triangles(gltf, data, prim) {
                            None => None,
                            Some(Err(e)) => Some(Err(e)),
                            Some(Ok(triangles)) => Some(
                                Ok(
                                    (
                                        MeshData {
                                            name: mesh.name@,
                                            transform: node_transform(node),
                                            positions,
                                            tex_coords,
                                            normals,
                                            triangles,
                                            material: first_material as u32,
                                        },
                                        material,
                                        textures,
                                    ),
                                ),
                            ),
                        },
                    },
                },
            },
        }
    }
}

/// A camera node: only perspective cameras are taken.
pub open spec fn spec_import_camera(camera: gltf::Camera, node: gltf::Node) -> Result<CameraData, ImportError> {
    if camera.ty@ != "perspective"@ {
        Err(ImportError::NotPerspective)
    } else {
        Ok(
            CameraData {
                name: camera.name@,
                transform: node_transform(node),
                aspect_ratio: camera.perspective.aspect_ratio,
                yfov: camera.perspective.yfov,
                znear: camera.perspective.znear,
                zfar: camera.perspective.zfar,
            },
        )
    }
}

/// Importing the node `node_ref` into the scene built so far: a node with a
/// camera adds a camera; otherwise a node with a mesh adds a mesh, its
/// material and the material's textures; other nodes are skipped.
pub open spec fn spec_import_node(gltf: Gltf, data: Seq<u8>, st: SceneData, node_ref: usize) -> Outcome<
    SceneData,
> {
    if node_ref >= gltf.nodes.len() {
        None
    } else {
        let node = gltf.nodes[node_ref as int];
        match node.camera {
            Some(c) => {
                if c >= gltf.cameras.len() {
                    None
                } else {
                    match spec_import_camera(gltf.cameras[c as int], node) {
                        Ok(camera) => Some(Ok(SceneData { cameras: st.cameras.push(camera), ..st })),
                        Err(e) => Some(Err(e)),
                    }
                }
            },
            None => match node.mesh {
                Some(m) => {
                    if m >= gltf.meshes.len() {
                        None
                    } else {
                        match spec_import_mesh(
                            gltf,
                            data,
                            gltf.meshes[m as int],
                            node,
                            st.materials.len(),
                            st.textures.len(),
                        ) {
                            None => None,
                            Some(Err(e)) => Some(Err(e)),
                            Some(Ok((mesh, material, textures))) => Some(
                                Ok(
                                    SceneData {
                                        meshes: st.meshes.push(mesh),
                                        materials: st.materials.push(material),
                                        textures: st.textures + textures,
                                        ..st
                                    },
                                ),
                            ),
                        }
                    }
                },
                None => Some(Ok(st)),
            },
        }
    }
}

/// The empty scene.
pub open spec fn empty_scene_data() -> SceneData {
    SceneData { cameras: seq![], meshes: seq![], materials: seq![], textures: seq![] }
}

/// Importing the nodes `refs` one after another, stopping at the first
/// failure.
pub open spec fn spec_import_nodes(gltf: Gltf, data: Seq<u8>, refs: Seq<usize>) -> Outcome<SceneData>
    decreases refs.len(),
{
    if refs.len() == 0 {
        Some(Ok(empty_scene_data()))
    } else {
        match spec_import_nodes(gltf, data, refs.drop_last()) {
            Some(Ok(st)) => spec_import_node(gltf, data, st, refs.last()),
            other => other,
        }
    }
}

/// The root nodes of all scenes, scene after scene.
pub open spec fn scene_node_refs(scenes: Seq<gltf::Scene>) -> Seq<usize>
    decreases scenes.len(),
{
    if scenes.len() == 0 {
        seq![]
    } else {
        scene_node_refs(scenes.drop_last()) + scenes.last().nodes@
    }
}

/// The first position in `names` whose name occurs earlier.
pub open spec fn first_duplicate(names: Seq<Seq<char>>) -> Option<int>
    decreases names.len(),
{
    if names.len() == 0 {
        None
    } else {
        match first_duplicate(names.drop_last()) {
            Some(j) => Some(j),
            None => {
                if exists|i: int| 0 <= i < names.len() - 1 && names[i] == names.last() {
                    Some(names.len() - 1)
                } else {
                    None
                }
            },
        }
    }
}

/// The names of the meshes.
pub open spec fn mesh_names(st: SceneData) -> Seq<Seq<char>> {
    st.meshes.map_values(|m: MeshData| m.name)
}

/// The names of the materials.
pub open spec fn material_names(st: SceneData) -> Seq<Seq<char>> {
    st.materials.map_values(|m: MaterialData| m.name)
}

/// Importing a glTF document: every root node of every scene in turn, then
/// mesh names must be unique, then material names; a scene without a camera,
/// a mesh, a material or a texture is not taken (`None`).
pub open spec fn spec_import_scene(gltf: Gltf, data: Seq<u8>) -> Outcome<SceneData> {
    match spec_import_nodes(gltf, data, scene_node_refs(gltf.scenes@)) {
        Some(Ok(st)) => match first_duplicate(mesh_names(st)) {
            Some(i) => Some(Err(ImportError::DuplicateMeshName(i as usize))),
            None => match first_duplicate(material_names(st)) {
                Some(i) => Some(Err(ImportError::DuplicateMaterialName(i as usize))),
                None => {
                    if st.cameras.len() == 0 || st.meshes.len() == 0 || st.materials.len() == 0
                        || st.textures.len() == 0 {
                        None
                    } else {
                        Some(Ok(st))
                    }
                },
            },
        },
        other => other,
    }
}

/// The texture indices of every material fit in `u32`, and the replacement
/// flags of all textures fit in a bit vector.
pub open spec fn import_fits(gltf: Gltf) -> bool {
    let n = scene_node_refs(gltf.scenes@).len();
    &&& 7 * n + 7 <= u32::MAX
    &&& 7 * n + 7 <= usize::MAX / 8
}

/// The textures of a scene after importing a mesh node fails: the
/// material's textures stay appended when the mesh fails after its material
/// was imported.
pub open spec fn failed_mesh_textures(gltf: Gltf, data: Seq<u8>, mesh: gltf::Mesh, textures: Seq<TextureData>) -> Seq<TextureData> {
    if mesh.primitives.len() == 1 {
        match spec_import_material(gltf, data, mesh.primitives[0], textures.len()) {
            Some(Ok((_, ts))) => textures + ts,
            _ => textures,
        }
    } else {
        textures
    }
}

/// The textures of a scene after importing the node `node_ref` fails.
pub open spec fn failed_node_textures(gltf: Gltf, data: Seq<u8>, textures: Seq<TextureData>, node_ref: usize) -> Seq<TextureData> {
    if node_ref < gltf.nodes.len() {
        let node = gltf.nodes[node_ref as int];
        match (node.camera, node.mesh) {
            (None, Some(m)) => if m < gltf.meshes.len() {
                failed_mesh_textures(gltf, data, gltf.meshes[m as int], textures)
            } else {
                textures
            },
            _ => textures,
        }
    } else {
        textures
    }
}

/// Imports a camera node into `scene`, as `spec_import_camera` says.
pub fn import_gltf_camera(camera: &gltf::Camera, node: &gltf::Node, scene: &mut Scene) -> (res: Result<(), ImportError>)
    ensures
        match spec_import_camera(*camera, *node) {
            Ok(c) => res is Ok && final(scene)@ == SceneData {
                cameras: old(scene)@.cameras.push(c),
                ..old(scene)@
            },
            Err(e) => res == Err::<(), ImportError>(e) && final(scene)@ == old(scene)@,
        },
{
    let name = camera.name.clone();
    let transform = NodeTransform { translation: node.translation, rotation: node.rotation, scale: node.scale };
    if !str_eq(camera.ty.as_str(), "perspective") {
        return Err(ImportError::NotPerspective);
    }
    let perspective = camera.perspective;
    let ghost before = scene@;
    scene.cameras.push(
        Camera {
            name,
            transform,
            aspect_ratio: perspective.aspect_ratio,
            yfov: perspective.yfov,
            znear: perspective.znear,
            zfar: perspective.zfar,
        },
    );
    assert(scene@.cameras =~= before.cameras.push(spec_import_camera(*camera, *node)->Ok_0));
    assert(scene@.meshes =~= before.meshes);
    assert(scene@.materials =~= before.materials);
    assert(scene@.textures =~= before.textures);
    Ok(())
}

/// Imports a mesh node into `scene`, as `spec_import_mesh` says.
pub fn import_gltf_mesh(gltf: &Gltf, mesh: &gltf::Mesh, node: &gltf::Node, data: &[u8], scene: &mut Scene) -> (res:
    Option<Result<(), ImportError>>)
    requires
        old(scene)@.textures.len() + 7 <= u32::MAX,
        old(scene)@.materials.len() <= u32::MAX,
    ensures
        match spec_import_mesh(
            *gltf,
            data@,
            *mesh,
            *node,
            old(scene)@.materials.len(),
            old(scene)@.textures.len(),
        ) {
            None => res is None,
            Some(Err(e)) => res == Some(Err::<(), ImportError>(e)),
            Some(Ok((m, mat, ts))) => res == Some(Ok::<(), ImportError>(())) && final(scene)@
                == SceneData {
                meshes: old(scene)@.meshes.push(m),
                materials: old(scene)@.materials.push(mat),
                textures: old(scene)@.textures + ts,
                ..old(scene)@
            },
        },
        !(res matches Some(Ok(_))) ==> final(scene)@ == (SceneData {
            textures: failed_mesh_textures(*gltf, data@, *mesh, old(scene)@.textures),
            ..old(scene)@
        }),
{
    if mesh.primitives.len() != 1 {
        return Some(Err(ImportError::PrimitiveCount));
    }
    let prim = &mesh.primitives[0];
    let name = mesh.name.clone();
    let transform = NodeTransform { translation: node.translation, rotation: node.rotation, scale: node.scale };
    let ghost before = scene@;
    let material_index = scene.materials.len() as u32;
    let material = match import_gltf_material(gltf, prim, data, &mut scene.textures) {
        None => {
            return None;
        },
        Some(Err(e)) => {
            return Some(Err(e));
        },
        Some(Ok(m)) => m,
    };
    let positions = match import_gltf_positions(gltf, prim, data) {
        None => {
            return None;
        },
        Some(Err(e)) => {
            return Some(Err(e));
        },
        Some(Ok(v)) => v,
    };
    let tex_coords = match import_gltf_tex_coords(gltf, prim, data) {
        None => {
            return None;
        },
        Some(Err(e)) => {
            return Some(Err(e));
        },
        Some(Ok(v)) => v,
    };
    let normals = match import_gltf_normals(gltf, prim, data) {
        None => {
            return None;
        },
        Some(Err(e)) => {
            return Some(Err(e));
        },
        Some(Ok(v)) => v,
    };
    let triangles = match import_gltf_triangles(gltf, prim, data) {
        None => {
            return None;
        },
        Some(Err(e)) => {
            return Some(Err(e));
        },
        Some(Ok(v)) => v,
    };
    let ghost material_view = material@;
    scene.materials.push(material);
    scene.meshes.push(
        Mesh { name, transform, positions, tex_coords, normals, triangles, material: material_index },
    );
    proof {
        let expected = spec_import_mesh(
            *gltf,
            data@,
            *mesh,
            *node,
            before.materials.len(),
            before.textures.len(),
        )->Some_0->Ok_0;
        assert(scene@.meshes =~= before.meshes.push(expected.0));
        assert(scene@.materials =~= before.materials.push(expected.1));
        assert(scene@.cameras =~= before.cameras);
    }
    Some(Ok(()))
}

/// Imports the node `node_ref` into `scene`, as `spec_import_node` says.
pub fn import_gltf_node(gltf: &Gltf, data: &[u8], node_ref: usize, scene: &mut Scene) -> (res: Option<
    Result<(), ImportError>,
>)
    requires
        old(scene)@.textures.len() + 7 <= u32::MAX,
        old(scene)@.materials.len() <= u32::MAX,
    ensures
        match spec_import_node(*gltf, data@, old(scene)@, node_ref) {
            None => res is None,
            Some(Err(e)) => res == Some(Err::<(), ImportError>(e)),
            Some(Ok(st)) => res == Some(Ok::<(), ImportError>(())) && final(scene)@ == st,
        },
        !(res matches Some(Ok(_))) ==> final(scene)@ == (SceneData {
            textures: failed_node_textures(*gltf, data@, old(scene)@.textures, node_ref),
            ..old(scene)@
        }),
{
    if node_ref >= gltf.nodes.len() {
        return None;
    }
    let node = &gltf.nodes[node_ref];
    match node.camera {
        Some(c) => {
            if c >= gltf.cameras.len() {
                return None;
            }
            match import_gltf_camera(&gltf.cameras[c], node, scene) {
                Ok(()) => Some(Ok(())),
                Err(e) => Some(Err(e)),
            }
        },
        None => match node.mesh {
            Some(m) => {
                if m >= gltf.meshes.len() {
                    return None;
                }
                import_gltf_mesh(gltf, &gltf.meshes[m], node, data, scene)
            },
            None => Some(Ok(())),
        },
    }
}


/// Once the import of a prefix of the nodes has stopped, importing more nodes
/// stops the same way.
pub proof fn lemma_import_nodes_stops(gltf: Gltf, data: Seq<u8>, p: Seq<usize>, q: Seq<usize>)
    requires
        p.len() <= q.len(),
        q.take(p.len() as int) == p,
        !(spec_import_nodes(gltf, data, p) is Some && spec_import_nodes(gltf, data, p)->Some_0 is Ok),
    ensures
        spec_import_nodes(gltf, data, q) == spec_import_nodes(gltf, data, p),
    decreases q.len(),
{
    if q.len() == p.len() {
        assert(q =~= p);
    } else {
        assert(q.drop_last().take(p.len() as int) =~= p);
        lemma_import_nodes_stops(gltf, data, p, q.drop_last());
    }
}

/// The root nodes of the first `a` scenes come first among those of the
/// first `b` scenes.
pub proof fn lemma_scene_node_refs_prefix(scenes: Seq<gltf::Scene>, a: int, b: int)
    requires
        0 <= a <= b <= scenes.len(),
    ensures
        scene_node_refs(scenes.take(a)).len() <= scene_node_refs(scenes.take(b)).len(),
        scene_node_refs(scenes.take(b)).take(scene_node_refs(scenes.take(a)).len() as int)
            == scene_node_refs(scenes.take(a)),
    decreases b - a,
{
    if a < b {
        lemma_scene_node_refs_prefix(scenes, a, b - 1);
        assert(scenes.take(b).drop_last() =~= scenes.take(b - 1));
        let pa = scene_node_refs(scenes.take(a));
        let pb1 = scene_node_refs(scenes.take(b - 1));
        assert(scene_node_refs(scenes.take(b)) == pb1 + scenes.take(b).last().nodes@);
        assert((pb1 + scenes.take(b).last().nodes@).take(pa.len() as int) =~= pb1.take(
            pa.len() as int,
        ));
    }
}

/// What importing nodes keeps: one material per mesh, seven textures per
/// material, mesh `j` using material `j`, and material `i` using textures
/// `7 * i` to `7 * i + 6` in field order; and no more meshes and cameras than
/// nodes.
pub open spec fn import_state_inv(st: SceneData) -> bool {
    &&& st.materials.len() == st.meshes.len()
    &&& st.textures.len() == 7 * st.materials.len()
    &&& forall|j: int| 0 <= j < st.meshes.len() ==> (#[trigger] st.meshes[j]).material == j
    &&& forall|i: int|
        0 <= i < st.materials.len() ==> {
            let m = #[trigger] st.materials[i];
            &&& m.base_color == 7 * i
            &&& m.metallic == 7 * i + 1
            &&& m.roughness == 7 * i + 2
            &&& m.specular == 7 * i + 3
            &&& m.specular_tint == 7 * i + 4
            &&& m.sheen == 7 * i + 5
            &&& m.sheen_tint == 7 * i + 6
        }
}

/// Importing nodes keeps `import_state_inv`.
pub proof fn lemma_import_nodes_inv(gltf: Gltf, data: Seq<u8>, refs: Seq<usize>)
    requires
        7 * refs.len() + 7 <= u32::MAX,
    ensures
        spec_import_nodes(gltf, data, refs) matches Some(Ok(st)) ==> import_state_inv(st)
            && st.meshes.len() + st.cameras.len() <= refs.len(),
    decreases refs.len(),
{
    if refs.len() > 0 {
        lemma_import_nodes_inv(gltf, data, refs.drop_last());
        if let Some(Ok(st)) = spec_import_nodes(gltf, data, refs.drop_last()) {
            let node_ref = refs.last();
            if let Some(Ok(st2)) = spec_import_node(gltf, data, st, node_ref) {
                let node = gltf.nodes[node_ref as int];
                if node.camera is None && node.mesh is Some {
                    let m = node.mesh->Some_0;
                    let (mesh, material, textures) = spec_import_mesh(
                        gltf,
                        data,
                        gltf.meshes[m as int],
                        node,
                        st.materials.len(),
                        st.textures.len(),
                    )->Some_0->Ok_0;
                    let k = st.materials.len() as int;
                    assert(textures.len() == 7);
                    assert(st2.meshes[k].material == k);
                    assert(st2.materials[k].base_color == 7 * k);
                    assert forall|j: int| 0 <= j < st2.meshes.len() implies (
                    #[trigger] st2.meshes[j]).material == j by {
                        if j < k {
                            assert(st2.meshes[j] == st.meshes[j]);
                        }
                    }
                    assert forall|i: int| 0 <= i < st2.materials.len() implies {
                        let m = #[trigger] st2.materials[i];
                        &&& m.base_color == 7 * i
                        &&& m.metallic == 7 * i + 1
                        &&& m.roughness == 7 * i + 2
                        &&& m.specular == 7 * i + 3
                        &&& m.specular_tint == 7 * i + 4
                        &&& m.sheen == 7 * i + 5
                        &&& m.sheen_tint == 7 * i + 6
                    } by {
                        if i < k {
                            assert(st2.materials[i] == st.materials[i]);
                        }
                    }
                }
            }
        }
    }
}

/// A duplicate found in a prefix is the first duplicate of the whole
/// sequence.
pub proof fn lemma_first_duplicate_prefix(names: Seq<Seq<char>>, k: int)
    requires
        0 <= k <= names.len(),
        first_duplicate(names.take(k)) is Some,
    ensures
        first_duplicate(names) == first_duplicate(names.take(k)),
    decreases names.len(),
{
    if k == names.len() {
        assert(names.take(k) =~= names);
    } else {
        assert(names.drop_last().take(k) =~= names.take(k));
        lemma_first_duplicate_prefix(names.drop_last(), k);
    }
}

/// The first mesh whose name an earlier mesh has, as `first_duplicate` says.
fn first_duplicate_mesh_name(meshes: &Vec<Mesh>) -> (res: Option<usize>)
    ensures
        match first_duplicate(meshes@.map_values(|m: Mesh| m.name@)) {
            Some(j) => res == Some(j as usize),
            None => res is None,
        },
{
    let ghost names = meshes@.map_values(|m: Mesh| m.name@);
    let n = meshes.len();
    let mut j: usize = 0;
    while j < n
        invariant
            n == meshes@.len(),
            names == meshes@.map_values(|m: Mesh| m.name@),
            0 <= j <= n,
            first_duplicate(names.take(j as int)) is None,
        decreases n - j,
    {
        let mut i: usize = 0;
        while i < j
            invariant
                n == meshes@.len(),
                names == meshes@.map_values(|m: Mesh| m.name@),
                0 <= i <= j < n,
                first_duplicate(names.take(j as int)) is None,
                forall|k: int| 0 <= k < i ==> names[k] != names[j as int],
            decreases j - i,
        {
            if str_eq(meshes[i].name.as_str(), meshes[j].name.as_str()) {
                proof {
                    let t = names.take(j + 1);
                    assert(t.drop_last() =~= names.take(j as int));
                    assert(t[i as int] == t.last());
                    assert(first_duplicate(t.drop_last()) is None);
                    assert(exists|k: int| 0 <= k < t.len() - 1 && t[k] == t.last());
                    assert(first_duplicate(t) == Some(j as int));
                    lemma_first_duplicate_prefix(names, j + 1);
                }
                return Some(j);
            }
            i += 1;
        }
        proof {
            let t = names.take(j + 1);
            assert(t.drop_last() =~= names.take(j as int));
            assert(!exists|k: int| 0 <= k < t.len() - 1 && t[k] == t.last());
        }
        j += 1;
    }
    assert(names.take(n as int) =~= names);
    None
}

/// The first material whose name an earlier material has, as
/// `first_duplicate` says.
fn first_duplicate_material_name(materials: &Vec<Material>) -> (res: Option<usize>)
    ensures
        match first_duplicate(materials@.map_values(|m: Material| m.name@)) {
            Some(j) => res == Some(j as usize),
            None => res is None,
        },
{
    let ghost names = materials@.map_values(|m: Material| m.name@);
    let n = materials.len();
    let mut j: usize = 0;
    while j < n
        invariant
            n == materials@.len(),
            names == materials@.map_values(|m: Material| m.name@),
            0 <= j <= n,
            first_duplicate(names.take(j as int)) is None,
        decreases n - j,
    {
        let mut i: usize = 0;
        while i < j
            invariant
                n == materials@.len(),
                names == materials@.map_values(|m: Material| m.name@),
                0 <= i <= j < n,
                first_duplicate(names.take(j as int)) is None,
                forall|k: int| 0 <= k < i ==> names[k] != names[j as int],
            decreases j - i,
        {
            if str_eq(materials[i].name.as_str(), materials[j].name.as_str()) {
                proof {
                    let t = names.take(j + 1);
                    assert(t.drop_last() =~= names.take(j as int));
                    assert(t[i as int] == t.last());
                    assert(first_duplicate(t.drop_last()) is None);
                    assert(exists|k: int| 0 <= k < t.len() - 1 && t[k] == t.last());
                    assert(first_duplicate(t) == Some(j as int));
                    lemma_first_duplicate_prefix(names, j + 1);
                }
                return Some(j);
            }
            i += 1;
        }
        proof {
            let t = names.take(j + 1);
            assert(t.drop_last() =~= names.take(j as int));
            assert(!exists|k: int| 0 <= k < t.len() - 1 && t[k] == t.last());
        }
        j += 1;
    }
    assert(names.take(n as int) =~= names);
    None
}

/// The editable copy of an imported material.
pub open spec fn dynamic_material_of(m: MaterialData) -> DynamicMaterial {
    DynamicMaterial {
        model: m.model,
        base_color: m.base_color,
        metallic: m.metallic,
        roughness: m.roughness,
        specular: m.specular,
        specular_tint: m.specular_tint,
        sheen: m.sheen,
        sheen_tint: m.sheen_tint,
    }
}

/// The editable value of an imported texture: constants are kept, and an
/// image stands as white (all four components 1.0).
pub open spec fn dynamic_texture_of(t: TextureData) -> DynamicTexture {
    match t {
        TextureData::Scalar(s) => DynamicTexture::Scalar(s),
        TextureData::Vector2(v) => DynamicTexture::Vector2(v),
        TextureData::Vector3(v) => DynamicTexture::Vector3(v),
        TextureData::Vector4(v) => DynamicTexture::Vector4(v),
        TextureData::Image { .. } => DynamicTexture::Vector4(
            [F32_ONE_BITS, F32_ONE_BITS, F32_ONE_BITS, F32_ONE_BITS],
        ),
    }
}

/// `d` is the editable part of the scene `sd` as imported: its materials and
/// textures copied, the defaults equal to the textures, and no texture
/// replaced.
pub open spec fn dynamic_scene_of(sd: SceneData, d: DynamicScene) -> bool {
    &&& d.materials@ == sd.materials.map_values(|m: MaterialData| dynamic_material_of(m))
    &&& d.textures@ == sd.textures.map_values(|t: TextureData| dynamic_texture_of(t))
    &&& d.default_textures@ == d.textures@
    &&& d.replaced() == Seq::new(sd.textures.len(), |i: int| false)
}

/// Law: the editable copy of an imported scene gives every material the
/// model and, field by field, the texture indices of the imported material,
/// and every constant texture the value the imported one samples to.
pub proof fn lemma_dynamic_copy_matches_import(sd: SceneData, d: DynamicScene)
    requires
        dynamic_scene_of(sd, d),
    ensures
        d.materials.len() == sd.materials.len(),
        d.textures.len() == sd.textures.len(),
        forall|i: int|
            0 <= i < sd.materials.len() ==> {
                let m = #[trigger] d.materials[i];
                let s = sd.materials[i];
                &&& m.model == s.model
                &&& m.base_color == s.base_color
                &&& m.metallic == s.metallic
                &&& m.roughness == s.roughness
                &&& m.specular == s.specular
                &&& m.specular_tint == s.specular_tint
                &&& m.sheen == s.sheen
                &&& m.sheen_tint == s.sheen_tint
            },
        forall|i: int, x: int, y: int|
            0 <= i < sd.textures.len() && !(sd.textures[i] is Image) ==> super::dynamic::dynamic_texture_sample(
                d.textures[i],
            ) == #[trigger] super::scene::spec_sample_cell(sd.textures[i], x, y),
{
    assert forall|i: int| 0 <= i < sd.materials.len() implies {
        let m = #[trigger] d.materials[i];
        let s = sd.materials[i];
        &&& m.model == s.model
        &&& m.base_color == s.base_color
        &&& m.metallic == s.metallic
        &&& m.roughness == s.roughness
        &&& m.specular == s.specular
        &&& m.specular_tint == s.specular_tint
        &&& m.sheen == s.sheen
        &&& m.sheen_tint == s.sheen_tint
    } by {
        assert(d.materials@[i] == dynamic_material_of(sd.materials[i]));
    }
    assert forall|i: int, x: int, y: int|
        0 <= i < sd.textures.len() && !(sd.textures[i] is Image) implies super::dynamic::dynamic_texture_sample(
        d.textures[i],
    ) == #[trigger] super::scene::spec_sample_cell(sd.textures[i], x, y) by {
        assert(d.textures@[i] == dynamic_texture_of(sd.textures[i]));
        super::scene::lemma_constant_texture_samples(sd.textures[i], x, y);
    }
}

/// The editable part of a freshly imported scene.
fn dynamic_scene_from(scene: &Scene) -> (d: DynamicScene)
    requires
        scene.textures@.len() <= usize::MAX / 8,
    ensures
        dynamic_scene_of(scene@, d),
        d.wf(),
{
    let mut materials: Vec<DynamicMaterial> = Vec::new();
    let mut i: usize = 0;
    while i < scene.materials.len()
        invariant
            0 <= i <= scene.materials@.len(),
            materials@ =~= scene@.materials.take(i as int).map_values(
                |m: MaterialData| dynamic_material_of(m),
            ),
        decreases scene.materials@.len() - i,
    {
        let m = &scene.materials[i];
        materials.push(
            DynamicMaterial {
                model: m.model,
                base_color: m.base_color,
                metallic: m.metallic,
                roughness: m.roughness,
                specular: m.specular,
                specular_tint: m.specular_tint,
                sheen: m.sheen,
                sheen_tint: m.sheen_tint,
            },
        );
        i += 1;
    }
    let mut textures: Vec<DynamicTexture> = Vec::new();
    let mut k: usize = 0;
    while k < scene.textures.len()
        invariant
            0 <= k <= scene.textures@.len(),
            textures@ =~= scene@.textures.take(k as int).map_values(
                |t: TextureData| dynamic_texture_of(t),
            ),
        decreases scene.textures@.len() - k,
    {
        let t = match &scene.textures[k] {
            Texture::Scalar(s) => DynamicTexture::Scalar(*s),
            Texture::Vector2(v) => DynamicTexture::Vector2(*v),
            Texture::Vector3(v) => DynamicTexture::Vector3(*v),
            Texture::Vector4(v) => DynamicTexture::Vector4(*v),
            Texture::Image { .. } => DynamicTexture::Vector4(
                [F32_ONE_BITS, F32_ONE_BITS, F32_ONE_BITS, F32_ONE_BITS],
            ),
        };
        textures.push(t);
        k += 1;
    }
    assert(scene@.materials.take(scene.materials@.len() as int) =~= scene@.materials);
    assert(scene@.textures.take(scene.textures@.len() as int) =~= scene@.textures);
    let default_textures = textures.clone();
    let replaced_textures = TextureFlags::cleared(textures.len());
    DynamicScene { materials, textures, default_textures, replaced_textures }
}

impl Scene {
    /// Imports a glTF document with its binary buffer, as `spec_import_scene`
    /// says, together with the editable part of the scene; `None` where the
    /// document refers out of range, holds indices that cannot be
    /// reinterpreted, or yields an empty scene.
    pub fn try_create(gltf: &Gltf, data: &[u8]) -> (res: Option<Result<(Scene, DynamicScene), ImportError>>)
        requires
            import_fits(*gltf),
        ensures
            match spec_import_scene(*gltf, data@) {
                None => res is None,
                Some(Err(e)) => res matches Some(Err(e2)) && e2 == e,
                Some(Ok(sd)) => res matches Some(Ok((s, d))) && s@ == sd && dynamic_scene_of(sd, d)
                    && d.wf(),
            },
    {
        let mut scene = Scene {
            cameras: Vec::new(),
            meshes: Vec::new(),
            materials: Vec::new(),
            textures: Vec::new(),
        };
        assert(scene@ == empty_scene_data()) by {
            assert(scene@.cameras =~= Seq::<CameraData>::empty());
            assert(scene@.meshes =~= Seq::<MeshData>::empty());
            assert(scene@.materials =~= Seq::<MaterialData>::empty());
            assert(scene@.textures =~= Seq::<TextureData>::empty());
        }
        let ghost scenes = gltf.scenes@;
        let ghost all = scene_node_refs(scenes);
        assert(scenes.take(0) =~= Seq::<gltf::Scene>::empty());
        let scene_count = gltf.scenes.len();
        let mut si: usize = 0;
        while si < scene_count
            invariant
                import_fits(*gltf),
                scenes == gltf.scenes@,
                scene_count == scenes.len(),
                all == scene_node_refs(scenes),
                0 <= si <= scene_count,
                spec_import_nodes(*gltf, data@, scene_node_refs(scenes.take(si as int))) == Some(
                    Ok::<SceneData, ImportError>(scene@),
                ),
            decreases scene_count - si,
        {
            let nodes = &gltf.scenes[si].nodes;
            let ghost prefix = scene_node_refs(scenes.take(si as int));
            let ghost upto = scene_node_refs(scenes.take(si + 1));
            proof {
                assert(scenes.take(si + 1).drop_last() =~= scenes.take(si as int));
                assert(upto == prefix + nodes@);
                lemma_scene_node_refs_prefix(scenes, si + 1, scenes.len() as int);
                assert(scenes.take(scenes.len() as int) =~= scenes);
                assert(prefix + nodes@.take(0) =~= prefix);
            }
            let mut ni: usize = 0;
            while ni < nodes.len()
                invariant
                    import_fits(*gltf),
                    scenes == gltf.scenes@,
                    all == scene_node_refs(scenes),
                    upto == prefix + nodes@,
                    upto.len() <= all.len(),
                    all.take(upto.len() as int) == upto,
                    0 <= ni <= nodes@.len(),
                    spec_import_nodes(*gltf, data@, prefix + nodes@.take(ni as int)) == Some(
                        Ok::<SceneData, ImportError>(scene@),
                    ),
                decreases nodes@.len() - ni,
            {
                let node_ref = nodes[ni];
                let ghost cur = prefix + nodes@.take(ni as int);
                let ghost next = prefix + nodes@.take(ni + 1);
                proof {
                    assert(next.drop_last() =~= cur);
                    lemma_import_nodes_inv(*gltf, data@, cur);
                    assert(cur.len() < upto.len());
                    assert(next.len() <= all.len());
                    assert(all.take(next.len() as int) =~= next) by {
                        assert(upto.take(next.len() as int) =~= next);
                        assert(all.take(upto.len() as int).take(next.len() as int) =~= all.take(
                            next.len() as int,
                        ));
                    }
                }
                match import_gltf_node(gltf, data, node_ref, &mut scene) {
                    None => {
                        proof {
                            lemma_import_nodes_stops(*gltf, data@, next, all);
                        }
                        return None;
                    },
                    Some(Err(e)) => {
                        proof {
                            lemma_import_nodes_stops(*gltf, data@, next, all);
                        }
                        return Some(Err(e));
                    },
                    Some(Ok(())) => {},
                }
                ni += 1;
            }
            proof {
                assert(nodes@.take(nodes@.len() as int) =~= nodes@);
            }
            si += 1;
        }
        proof {
            assert(scenes.take(scene_count as int) =~= scenes);
            lemma_import_nodes_inv(*gltf, data@, all);
        }
        let ghost st = scene@;
        assert(mesh_names(st) =~= scene.meshes@.map_values(|m: Mesh| m.name@));
        assert(material_names(st) =~= scene.materials@.map_values(|m: Material| m.name@));
        if let Some(i) = first_duplicate_mesh_name(&scene.meshes) {
            return Some(Err(ImportError::DuplicateMeshName(i)));
        }
        if let Some(i) = first_duplicate_material_name(&scene.materials) {
            return Some(Err(ImportError::DuplicateMaterialName(i)));
        }
        let dyn_scene = dynamic_scene_from(&scene);
        if scene.cameras.len() == 0 || scene.meshes.len() == 0 || scene.materials.len() == 0
            || scene.textures.len() == 0 {
            return None;
        }
        Some(Ok((scene, dyn_scene)))
    }
}


impl Scene {
    /// Imports a glTF document with its binary buffer, as `spec_import_scene`
    /// says, on documents whose import neither refers out of range nor yields
    /// an empty scene.
    pub fn create(gltf: &Gltf, data: &[u8]) -> (res: Result<(Scene, DynamicScene), ImportError>)
        requires
            import_fits(*gltf),
            spec_import_scene(*gltf, data@) is Some,
        ensures
            match spec_import_scene(*gltf, data@)->Some_0 {
                Err(e) => res matches Err(e2) && e2 == e,
                Ok(sd) => res matches Ok((s, d)) && s@ == sd && dynamic_scene_of(sd, d) && d.wf(),
            },
    {
        match Scene::try_create(gltf, data) {
            Some(res) => res,
            None => {
                proof {
                    assert(false);
                }
                Err(ImportError::PrimitiveCount)
            },
        }
    }
}

/// A sequence without a first duplicate holds no value twice.
pub proof fn lemma_no_duplicate_distinct(names: Seq<Seq<char>>)
    requires
        first_duplicate(names) is None,
    ensures
        forall|i: int, j: int| 0 <= i < j < names.len() ==> names[i] != names[j],
    decreases names.len(),
{
    if names.len() > 0 {
        lemma_no_duplicate_distinct(names.drop_last());
        assert forall|i: int, j: int| 0 <= i < j < names.len() implies names[i] != names[j] by {
            if j < names.len() - 1 {
                assert(names[i] == names.drop_last()[i] && names[j] == names.drop_last()[j]);
            }
        }
    }
}

/// Law of the import: an imported scene has a camera, a mesh, a material and
/// a texture; mesh `j` uses material `j`; material `i` uses textures `7 * i`
/// to `7 * i + 6` in field order, so every texture index of every material is
/// in range; and mesh names, like material names, are pairwise distinct.
pub proof fn lemma_imported_scene_consistent(gltf: Gltf, data: Seq<u8>)
    requires
        import_fits(gltf),
        spec_import_scene(gltf, data) matches Some(Ok(_)),
    ensures
        ({
            let sd = spec_import_scene(gltf, data)->Some_0->Ok_0;
            &&& import_state_inv(sd)
            &&& sd.cameras.len() > 0 && sd.meshes.len() > 0
            &&& forall|i: int, f: super::MaterialField|
                0 <= i < sd.materials.len() ==> #[trigger] dynamic_material_of(
                    sd.materials[i],
                ).spec_texture(f) < sd.textures.len()
            &&& forall|i: int, j: int|
                0 <= i < j < sd.meshes.len() ==> sd.meshes[i].name != sd.meshes[j].name
            &&& forall|i: int, j: int|
                0 <= i < j < sd.materials.len() ==> sd.materials[i].name != sd.materials[j].name
        }),
{
    let refs = scene_node_refs(gltf.scenes@);
    lemma_import_nodes_inv(gltf, data, refs);
    let sd = spec_import_scene(gltf, data)->Some_0->Ok_0;
    lemma_no_duplicate_distinct(mesh_names(sd));
    lemma_no_duplicate_distinct(material_names(sd));
    assert forall|i: int, j: int| 0 <= i < j < sd.meshes.len() implies sd.meshes[i].name
        != sd.meshes[j].name by {
        assert(mesh_names(sd)[i] == sd.meshes[i].name);
        assert(mesh_names(sd)[j] == sd.meshes[j].name);
    }
    assert forall|i: int, j: int| 0 <= i < j < sd.materials.len() implies sd.materials[i].name
        != sd.materials[j].name by {
        assert(material_names(sd)[i] == sd.materials[i].name);
        assert(material_names(sd)[j] == sd.materials[j].name);
    }
}

} // verus!
