use raydiance::gltf::{
    Accessor, AccessorType, Asset, Attributes, BaseColorFactor, Buffer, BufferView, Camera, Gltf,
    Id, Image, Material as GltfMaterial, Mesh as GltfMesh, MetallicFactor, Node, PbrMetallicRoughness,
    Perspective, Primitive, RoughnessFactor, Scene as GltfScene, Texture as GltfTexture,
};
use raydiance::offline::map_material_field;
use raydiance::rds::dynamic::dynamic_material_by_name;
use raydiance::rds::import::{Attribute, ImportError};
use raydiance::rds::{
    dynamic_model, dynamic_sample, dynamic_try_sample, DynamicMaterial, DynamicScene, DynamicTexture, Material,
    MaterialField, MaterialModel, Mesh, NodeTransform, Scene, Texture, TextureFlags,
};

fn le_bytes(values: &[u32]) -> Vec<u8> {
    values.iter().flat_map(|v| v.to_le_bytes()).collect()
}

fn view(byte_offset: usize, byte_length: usize) -> BufferView {
    BufferView { buffer: 0, byte_length, byte_offset, target: None }
}

fn accessor(buffer_view: usize, ty: AccessorType, component_type: u32) -> Accessor {
    Accessor { buffer_view, component_type, count: 3, ty, min: None, max: None }
}

fn gltf_node(name: &str, camera: Option<usize>, mesh: Option<usize>) -> Node {
    Node {
        name: name.to_string(),
        camera,
        mesh,
        translation: Some([1, 2, 3]),
        rotation: None,
        scale: None,
    }
}

fn pbr(base_color_texture: Option<Id>) -> PbrMetallicRoughness {
    PbrMetallicRoughness {
        base_color_texture,
        base_color_factor: BaseColorFactor([11, 12, 13, 14]),
        metallic_factor: MetallicFactor(15),
        roughness_factor: RoughnessFactor(16),
    }
}

// A camera and a triangle mesh: positions, texture coordinates, normals and
// u16 indices in one buffer.
fn sample_document() -> (Gltf, Vec<u8>) {
    let mut data = le_bytes(&[1, 2, 3, 4, 5, 6, 7, 8, 9]);
    data.extend(le_bytes(&[21, 22, 23, 24, 25, 26]));
    data.extend(le_bytes(&[31, 32, 33, 34, 35, 36, 37, 38, 39]));
    data.extend([0, 0, 1, 0, 2, 0]);
    let gltf = Gltf {
        accessors: vec![
            accessor(0, AccessorType::Vec3, 5126),
            accessor(1, AccessorType::Vec2, 5126),
            accessor(2, AccessorType::Vec3, 5126),
            accessor(3, AccessorType::Scalar, 5123),
        ],
        asset: Asset {
            copyright: String::new(),
            generator: "test".to_string(),
            version: "2.0".to_string(),
        },
        buffer_views: vec![view(0, 36), view(36, 24), view(60, 36), view(96, 6)],
        buffers: vec![Buffer { byte_length: data.len() }],
        cameras: vec![Camera {
            name: "camera".to_string(),
            ty: "perspective".to_string(),
            perspective: Perspective { aspect_ratio: 41, yfov: 42, zfar: 43, znear: 44 },
        }],
        images: vec![],
        materials: vec![GltfMaterial { name: "paint".to_string(), pbr_metallic_roughness: pbr(None) }],
        meshes: vec![GltfMesh {
            name: "cube".to_string(),
            primitives: vec![Primitive {
                attributes: Attributes { position: 0, texcoord_0: 1, normal: 2 },
                indices: 3,
                material: 0,
            }],
        }],
        nodes: vec![gltf_node("camera", Some(0), None), gltf_node("cube", None, Some(0))],
        samplers: vec![],
        scene: 0,
        scenes: vec![GltfScene { name: "scene".to_string(), nodes: vec![0, 1] }],
        textures: vec![],
    };
    (gltf, data)
}

fn import_error(gltf: &Gltf, data: &[u8]) -> ImportError {
    match Scene::create(gltf, data) {
        Ok(_) => panic!("the import was expected to fail"),
        Err(e) => e,
    }
}

const HALF: u32 = 0x3f00_0000;

#[test]
fn import_sample_document() {
    let (gltf, data) = sample_document();
    let (scene, dyn_scene) = Scene::create(&gltf, &data).expect("import");
    assert_eq!(scene.cameras.len(), 1);
    assert_eq!(scene.cameras[0].name, "camera");
    assert_eq!(
        (scene.cameras[0].aspect_ratio, scene.cameras[0].yfov, scene.cameras[0].znear, scene.cameras[0].zfar),
        (41, 42, 44, 43)
    );
    assert_eq!(scene.meshes.len(), 1);
    let mesh = &scene.meshes[0];
    assert_eq!(mesh.name, "cube");
    assert_eq!(
        mesh.transform,
        NodeTransform { translation: Some([1, 2, 3]), rotation: None, scale: None }
    );
    assert_eq!(mesh.positions, vec![[1, 2, 3], [4, 5, 6], [7, 8, 9]]);
    assert_eq!(mesh.tex_coords, vec![[21, 22], [23, 24], [25, 26]]);
    assert_eq!(mesh.normals, vec![[31, 32, 33], [34, 35, 36], [37, 38, 39]]);
    assert_eq!(mesh.triangles, vec![[0, 1, 2]]);
    assert_eq!(mesh.material, 0);
    assert_eq!(mesh.triangle_count(), 1);
    assert_eq!(mesh.index_count(), 3);
    let material = &scene.materials[0];
    assert_eq!(material.name, "paint");
    assert_eq!(material.model, MaterialModel::Disney);
    assert_eq!(
        [
            material.base_color,
            material.metallic,
            material.roughness,
            material.specular,
            material.specular_tint,
            material.sheen,
            material.sheen_tint
        ],
        [0, 1, 2, 3, 4, 5, 6]
    );
    assert_eq!(scene.textures.len(), 7);
    assert!(matches!(scene.textures[0], Texture::Vector4([11, 12, 13, 14])));
    assert!(matches!(scene.textures[1], Texture::Scalar(15)));
    assert!(matches!(scene.textures[2], Texture::Scalar(16)));
    assert!(matches!(scene.textures[3], Texture::Scalar(HALF)));
    assert!(matches!(scene.textures[4], Texture::Scalar(0)));
    assert!(matches!(scene.textures[6], Texture::Scalar(HALF)));
    assert_eq!(dyn_scene.materials.len(), 1);
    assert_eq!(dyn_scene.materials[0].model, MaterialModel::Disney);
    assert_eq!(dyn_scene.materials[0].sheen_tint, 6);
    assert_eq!(dyn_scene.textures[0], DynamicTexture::Vector4([11, 12, 13, 14]));
    assert_eq!(dyn_scene.textures[3], DynamicTexture::Scalar(HALF));
    assert_eq!(dyn_scene.default_textures, dyn_scene.textures);
    for i in 0..7 {
        assert!(!dyn_scene.replaced_textures.get(i));
    }
}

#[test]
fn import_reads_u32_indices() {
    let (mut gltf, mut data) = sample_document();
    let start = data.len();
    data.extend(le_bytes(&[2, 1, 0]));
    gltf.buffer_views.push(view(start, 12));
    gltf.accessors.push(accessor(4, AccessorType::Scalar, 5125));
    gltf.meshes[0].primitives[0].indices = 4;
    let (scene, _) = Scene::create(&gltf, &data).expect("import");
    assert_eq!(scene.meshes[0].triangles, vec![[2, 1, 0]]);
}

#[test]
fn import_refuses_a_non_perspective_camera() {
    let (mut gltf, data) = sample_document();
    gltf.cameras[0].ty = "orthographic".to_string();
    assert_eq!(import_error(&gltf, &data), ImportError::NotPerspective);
}

#[test]
fn import_refuses_two_primitives() {
    let (mut gltf, data) = sample_document();
    let prim = gltf.meshes[0].primitives[0];
    gltf.meshes[0].primitives.push(prim);
    assert_eq!(import_error(&gltf, &data), ImportError::PrimitiveCount);
}

#[test]
fn import_refuses_a_wrong_accessor_type() {
    let (mut gltf, data) = sample_document();
    gltf.accessors[1].ty = AccessorType::Vec3;
    assert_eq!(import_error(&gltf, &data), ImportError::WrongAccessorType(Attribute::TexCoords));
}

#[test]
fn import_refuses_an_empty_attribute() {
    let (mut gltf, data) = sample_document();
    gltf.buffer_views[2].byte_length = 0;
    assert_eq!(import_error(&gltf, &data), ImportError::EmptyAttribute(Attribute::Normals));
}

#[test]
fn import_refuses_a_partial_element() {
    let (mut gltf, data) = sample_document();
    gltf.buffer_views[0].byte_length = 35;
    assert_eq!(import_error(&gltf, &data), ImportError::BadAttributeLength(Attribute::Positions));
    let (mut gltf, data) = sample_document();
    gltf.buffer_views[3].byte_length = 4;
    assert_eq!(import_error(&gltf, &data), ImportError::BadAttributeLength(Attribute::Indices));
}

#[test]
fn import_refuses_duplicate_names() {
    let (mut gltf, data) = sample_document();
    let mesh = gltf.meshes[0].clone();
    gltf.meshes.push(mesh);
    gltf.nodes.push(gltf_node("cube2", None, Some(1)));
    gltf.scenes[0].nodes.push(2);
    assert_eq!(import_error(&gltf, &data), ImportError::DuplicateMeshName(1));

    let (mut gltf, data) = sample_document();
    let mut mesh = gltf.meshes[0].clone();
    mesh.name = "other".to_string();
    gltf.meshes.push(mesh);
    gltf.nodes.push(gltf_node("other", None, Some(1)));
    gltf.scenes[0].nodes.push(2);
    assert_eq!(import_error(&gltf, &data), ImportError::DuplicateMaterialName(1));
}

#[test]
fn import_without_a_camera_is_not_taken() {
    let (mut gltf, data) = sample_document();
    gltf.scenes[0].nodes = vec![1];
    assert!(Scene::try_create(&gltf, &data).is_none());
}

fn png_bytes(width: u32, height: u32) -> Vec<u8> {
    let mut image = image::RgbaImage::new(width, height);
    image.put_pixel(0, 0, image::Rgba([255, 0, 0, 255]));
    let mut bytes = Vec::new();
    image::DynamicImage::ImageRgba8(image)
        .write_to(&mut std::io::Cursor::new(&mut bytes), image::ImageOutputFormat::Png)
        .expect("encode");
    bytes
}

fn with_base_color_image(png: &[u8]) -> (Gltf, Vec<u8>) {
    let (mut gltf, mut data) = sample_document();
    let start = data.len();
    data.extend_from_slice(png);
    gltf.buffer_views.push(view(start, png.len()));
    gltf.images.push(Image {
        name: "base".to_string(),
        mime_type: "image/png".to_string(),
        buffer_view: 4,
    });
    gltf.textures.push(GltfTexture { sampler: 0, source: 0 });
    gltf.materials[0].pbr_metallic_roughness = pbr(Some(Id { index: 0 }));
    (gltf, data)
}

#[test]
fn import_decodes_a_base_color_image() {
    let (gltf, data) = with_base_color_image(&png_bytes(2, 4));
    let (scene, dyn_scene) = Scene::create(&gltf, &data).expect("import");
    match &scene.textures[0] {
        Texture::Image { width, height, components, pixels } => {
            assert_eq!((*width, *height, *components), (2, 4, 4));
            assert_eq!(pixels.len(), 32);
            assert_eq!(&pixels[0..4], &[1.0_f32.to_bits(), 0, 0, 1.0_f32.to_bits()]);
            assert_eq!(&pixels[4..8], &[0, 0, 0, 0]);
        },
        _ => panic!("the base color should be an image"),
    }
    assert_eq!(scene.textures[0].byte_count(), 128);
    assert_eq!(scene.textures[0].sample_cell(0, 0), [1.0_f32.to_bits(), 0, 0, 1.0_f32.to_bits()]);
    assert_eq!(scene.textures[0].sample_cell(9, 9), [0, 0, 0, 0]);
    // An image stands as white among the editable values.
    let one = 1.0_f32.to_bits();
    assert_eq!(dyn_scene.textures[0], DynamicTexture::Vector4([one, one, one, one]));
}

#[test]
fn import_refuses_images_that_are_not_powers_of_two() {
    let (gltf, data) = with_base_color_image(&png_bytes(3, 4));
    assert_eq!(import_error(&gltf, &data), ImportError::ImageWidthNotPowerOfTwo);
    let (gltf, data) = with_base_color_image(&png_bytes(4, 6));
    assert_eq!(import_error(&gltf, &data), ImportError::ImageHeightNotPowerOfTwo);
}

#[test]
fn import_refuses_bytes_that_are_not_png() {
    let (gltf, data) = with_base_color_image(&[1, 2, 3, 4, 5]);
    assert_eq!(import_error(&gltf, &data), ImportError::ImageDecode);
}

fn material(name: &str, first_texture: u32) -> Material {
    Material {
        name: name.to_string(),
        model: MaterialModel::Disney,
        base_color: first_texture,
        metallic: first_texture + 1,
        roughness: first_texture + 2,
        specular: first_texture + 3,
        specular_tint: first_texture + 4,
        sheen: first_texture + 5,
        sheen_tint: first_texture + 6,
    }
}

fn dynamic_material(first_texture: u32) -> DynamicMaterial {
    DynamicMaterial {
        model: MaterialModel::Diffuse,
        base_color: first_texture,
        metallic: first_texture + 1,
        roughness: first_texture + 2,
        specular: first_texture + 3,
        specular_tint: first_texture + 4,
        sheen: first_texture + 5,
        sheen_tint: first_texture + 6,
    }
}

fn two_materials() -> (Scene, DynamicScene) {
    let scene = Scene {
        cameras: vec![],
        meshes: vec![],
        materials: vec![material("cube", 0), material("plane", 7)],
        textures: vec![],
    };
    let textures: Vec<DynamicTexture> = (0..14).map(DynamicTexture::Scalar).collect();
    let dyn_scene = DynamicScene {
        materials: vec![dynamic_material(0), dynamic_material(7)],
        default_textures: textures.clone(),
        textures,
        replaced_textures: TextureFlags::cleared(14),
    };
    (scene, dyn_scene)
}

#[test]
fn material_by_name_takes_the_first_match() {
    let (mut scene, dyn_scene) = two_materials();
    assert_eq!(dynamic_material_by_name(&scene, &dyn_scene, "plane"), Some(dynamic_material(7)));
    assert_eq!(dynamic_material_by_name(&scene, &dyn_scene, "cube"), Some(dynamic_material(0)));
    assert_eq!(dynamic_material_by_name(&scene, &dyn_scene, "sphere"), None);
    scene.materials[1].name = "cube".to_string();
    assert_eq!(dynamic_material_by_name(&scene, &dyn_scene, "cube"), Some(dynamic_material(0)));
}

#[test]
fn mapping_a_field_marks_its_texture() {
    let (scene, mut dyn_scene) = two_materials();
    assert_eq!(map_material_field(&scene, &mut dyn_scene, "plane", MaterialField::Roughness), Some(9));
    assert!(dyn_scene.replaced_textures.get(9));
    assert_eq!(dynamic_try_sample(&dyn_scene, 9), Some([9, 0, 0, 0]));
    assert_eq!(map_material_field(&scene, &mut dyn_scene, "sphere", MaterialField::Roughness), None);
    let replaced: Vec<bool> = (0..14).map(|i| dyn_scene.replaced_textures.get(i)).collect();
    assert_eq!(replaced.iter().filter(|&&r| r).count(), 1);
}

#[test]
fn replaced_texture_is_sampled_and_reset_is_not() {
    let (_, mut dyn_scene) = two_materials();
    assert_eq!(dynamic_try_sample(&dyn_scene, 3), None);
    dyn_scene.replace_texture(3, DynamicTexture::Vector3([7, 8, 9]));
    assert_eq!(dynamic_try_sample(&dyn_scene, 3), Some([7, 8, 9, 0]));
    dyn_scene.set_replaced(3, false);
    assert_eq!(dynamic_try_sample(&dyn_scene, 3), None);
    assert_eq!(dyn_scene.textures[3], DynamicTexture::Vector3([7, 8, 9]));
    dyn_scene.set_replaced(3, true);
    assert_eq!(dynamic_try_sample(&dyn_scene, 3), Some([7, 8, 9, 0]));
    dyn_scene.reset_texture(3);
    assert_eq!(dynamic_try_sample(&dyn_scene, 3), None);
    assert_eq!(dyn_scene.textures[3], DynamicTexture::Scalar(3));
}

#[test]
fn set_model_changes_one_material() {
    let (_, mut dyn_scene) = two_materials();
    dyn_scene.set_model(1, MaterialModel::Disney);
    assert_eq!(dynamic_model(&dyn_scene, 0), MaterialModel::Diffuse);
    assert_eq!(dynamic_model(&dyn_scene, 1), MaterialModel::Disney);
    assert_eq!(dyn_scene.materials[1].base_color, 7);
}

#[test]
fn dynamic_texture_samples() {
    assert_eq!(DynamicTexture::Scalar(5).sample(), [5, 0, 0, 0]);
    assert_eq!(DynamicTexture::Vector2([1, 2]).sample(), [1, 2, 0, 0]);
    assert_eq!(DynamicTexture::Vector4([1, 2, 3, 4]).sample(), [1, 2, 3, 4]);
    let m = dynamic_material(7);
    assert_eq!(m.texture(MaterialField::BaseColor), 7);
    assert_eq!(m.texture(MaterialField::SheenTint), 13);
}

#[test]
fn image_cells_are_clamped() {
    let pixels: Vec<u32> = (0..12).collect();
    let image = Texture::Image { width: 3, height: 2, components: 2, pixels };
    assert_eq!(image.sample_cell(0, 0), [0, 1, 0, 0]);
    assert_eq!(image.sample_cell(2, 1), [10, 11, 0, 0]);
    assert_eq!(image.sample_cell(7, 0), [4, 5, 0, 0]);
    assert_eq!(image.sample_cell(1, 5), [8, 9, 0, 0]);
    assert_eq!(Texture::Vector3([1, 2, 3]).sample_cell(4, 4), [1, 2, 3, 0]);
    assert_eq!(image.byte_count(), 48);
    assert_eq!(Texture::Vector2([1, 2]).byte_count(), 8);
}

#[test]
fn material_model_names() {
    assert_eq!(MaterialModel::Diffuse.name(), "diffuse");
    assert_eq!(MaterialModel::Disney.name(), "disney");
}

#[test]
fn mesh_counts() {
    let mesh = Mesh {
        name: "m".to_string(),
        transform: NodeTransform { translation: None, rotation: None, scale: None },
        positions: vec![],
        tex_coords: vec![],
        normals: vec![],
        triangles: vec![[0, 1, 2], [2, 1, 3]],
        material: 0,
    };
    assert_eq!(mesh.triangle_count(), 2);
    assert_eq!(mesh.index_count(), 6);
}

#[test]
fn dynamic_sample_prefers_the_replacement() {
    let scene = Scene {
        cameras: vec![],
        meshes: vec![],
        materials: vec![],
        textures: vec![
            Texture::Scalar(1),
            Texture::Image { width: 2, height: 1, components: 1, pixels: vec![5, 6] },
        ],
    };
    let textures = vec![DynamicTexture::Scalar(1), DynamicTexture::Scalar(7)];
    let mut dyn_scene = DynamicScene {
        materials: vec![],
        default_textures: textures.clone(),
        textures,
        replaced_textures: TextureFlags::cleared(2),
    };
    assert_eq!(dynamic_sample(&scene, &dyn_scene, 1, 1, 0), [6, 0, 0, 0]);
    assert_eq!(dynamic_sample(&scene, &dyn_scene, 1, 0, 0), [5, 0, 0, 0]);
    dyn_scene.replace_texture(1, DynamicTexture::Vector2([8, 9]));
    assert_eq!(dynamic_sample(&scene, &dyn_scene, 1, 1, 0), [8, 9, 0, 0]);
    assert_eq!(dynamic_sample(&scene, &dyn_scene, 0, 3, 3), [1, 0, 0, 0]);
}

#[test]
fn a_failed_mesh_keeps_its_material_textures_out_of_the_meshes() {
    let (mut gltf, data) = sample_document();
    gltf.accessors[0].ty = AccessorType::Vec2;
    let mut scene = Scene { cameras: vec![], meshes: vec![], materials: vec![], textures: vec![] };
    let mesh = gltf.meshes[0].clone();
    let node = gltf.nodes[1].clone();
    let res = raydiance::rds::import::import_gltf_mesh(&gltf, &mesh, &node, &data, &mut scene);
    assert_eq!(res, Some(Err(ImportError::WrongAccessorType(Attribute::Positions))));
    assert!(scene.meshes.is_empty());
    assert!(scene.materials.is_empty());
    assert_eq!(scene.textures.len(), 7);

    let mut textures = vec![Texture::Scalar(9)];
    let (gltf, data) = with_base_color_image(&[1, 2, 3]);
    let prim = gltf.meshes[0].primitives[0];
    let res = raydiance::rds::import::import_gltf_material(&gltf, &prim, &data, &mut textures);
    assert!(matches!(res, Some(Err(ImportError::ImageDecode))));
    assert_eq!(textures.len(), 1);
}
