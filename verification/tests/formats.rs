use raydiance::debug::animation::create_boomerang;
use raydiance::glb::TextureKind;
use raydiance::gltf::{
    load_glb, BaseColorFactor, GlbError, MetallicFactor, RoughnessFactor, F32_ONE_BITS,
};
use raydiance::img::{checkerboard_pattern, AnimationParams};
use raydiance::offline::Args as OfflineArgs;
use raydiance::raytracing::Params as RaytracingParams;
use raydiance::text::{chars_of, matches_at, replace_chars, str_eq, substring_bytes};

fn glb(json: &[u8], bin: &[u8]) -> Vec<u8> {
    let total = 12 + 8 + json.len() + 8 + bin.len();
    let mut out = Vec::new();
    out.extend(b"glTF");
    out.extend(2_u32.to_le_bytes());
    out.extend((total as u32).to_le_bytes());
    out.extend((json.len() as u32).to_le_bytes());
    out.extend(b"JSON");
    out.extend(json);
    out.extend((bin.len() as u32).to_le_bytes());
    out.extend(b"BIN\0");
    out.extend(bin);
    out
}

#[test]
fn glb_container_is_split() {
    let bytes = glb(b"{\"asset\":{}}", &[1, 2, 3, 4]);
    let (json, bin) = load_glb(&bytes).unwrap();
    assert_eq!(json, "{\"asset\":{}}");
    assert_eq!(bin, vec![1, 2, 3, 4]);
}

#[test]
fn glb_errors() {
    let good = glb(b"{}", &[9]);
    assert_eq!(load_glb(&good[..11]), Err(GlbError::UnexpectedEof));

    let mut bad_magic = good.clone();
    bad_magic[0] = b'x';
    assert_eq!(load_glb(&bad_magic), Err(GlbError::BadMagic));

    let mut bad_version = good.clone();
    bad_version[4] = 1;
    assert_eq!(load_glb(&bad_version), Err(GlbError::BadVersion));

    let mut longer = good.clone();
    longer.push(0);
    assert_eq!(load_glb(&longer), Err(GlbError::LengthMismatch));

    assert_eq!(load_glb(&glb(b"", &[9])), Err(GlbError::EmptyJsonChunk));

    let mut not_json = good.clone();
    not_json[16] = b'X';
    assert_eq!(load_glb(&not_json), Err(GlbError::NotJsonChunk));

    assert_eq!(load_glb(&glb(&[0xff, 0xfe], &[9])), Err(GlbError::InvalidUtf8));

    assert_eq!(load_glb(&glb(b"{}", &[])), Err(GlbError::EmptyBinaryChunk));

    let mut not_bin = good.clone();
    not_bin[26] = b'X';
    assert_eq!(load_glb(&not_bin), Err(GlbError::NotBinaryChunk));

    let mut short_bin = glb(b"{}", &[9, 9]);
    short_bin[22] = 3;
    let n = short_bin.len() as u32;
    short_bin[8..12].copy_from_slice(&n.to_le_bytes());
    assert_eq!(load_glb(&short_bin), Err(GlbError::UnexpectedEof));
}

#[test]
fn glb_header_without_chunks_is_cut_short() {
    let mut header = Vec::new();
    header.extend(b"glTF");
    header.extend(2_u32.to_le_bytes());
    header.extend(12_u32.to_le_bytes());
    assert_eq!(load_glb(&header), Err(GlbError::UnexpectedEof));
}

#[test]
fn gltf_factors_default_to_one() {
    assert_eq!(F32_ONE_BITS, 1.0_f32.to_bits());
    assert_eq!(BaseColorFactor::default().0, [F32_ONE_BITS; 4]);
    assert_eq!(MetallicFactor::default().0, F32_ONE_BITS);
    assert_eq!(RoughnessFactor::default().0, F32_ONE_BITS);
}

#[test]
fn boomerang_plays_forward_then_backward() {
    assert_eq!(create_boomerang(vec![1, 2, 3]), vec![1, 2, 3, 3, 2, 1]);
    assert_eq!(create_boomerang(Vec::<u8>::new()), Vec::<u8>::new());
    assert_eq!(
        raydiance::img::create_boomerang(vec!["a".to_string(), "b".to_string()]),
        vec!["a", "b", "b", "a"]
    );
}

#[test]
fn checkerboard_alternates() {
    let cells = checkerboard_pattern(3, 2);
    assert_eq!(cells, vec![true, false, true, false, true, false]);
    assert_eq!(checkerboard_pattern(32, 32).iter().filter(|&&dark| dark).count(), 512);
    assert!(checkerboard_pattern(0, 4).is_empty());
}

#[test]
fn animation_params_hold_a_delay() {
    let params = AnimationParams { delay_num: 1, delay_den: 20 };
    assert_eq!(params, AnimationParams { delay_num: 1, delay_den: 20 });
}

#[test]
fn raytracing_defaults() {
    let p = RaytracingParams::default();
    assert_eq!((p.samples_per_pixel, p.max_bounce_count, p.seed), (64, 4, 0));
}

#[test]
fn offline_args_and_texture_kinds() {
    let args = OfflineArgs {
        glb_scene: "a.glb".to_string(),
        render_job_name: "job".to_string(),
        render_config: "render.ron".to_string(),
        scene_config: "scene.ron".to_string(),
    };
    assert_eq!(args.render_job_name, "job");
    assert_ne!(TextureKind::BaseColor, TextureKind::Metallic);
    assert_eq!(TextureKind::Roughness, TextureKind::Roughness);
}

#[test]
fn text_helpers() {
    assert!(str_eq("abc", "abc"));
    assert!(!str_eq("abc", "abd"));
    assert!(!str_eq("abc", "ab"));
    let chars = chars_of("héllo");
    assert_eq!(chars, vec!['h', 'é', 'l', 'l', 'o']);
    assert!(matches_at(&chars, 2, &vec!['l', 'l']));
    assert!(!matches_at(&chars, 4, &vec!['o', 'o']));
    assert!(!matches_at(&chars, 9, &vec!['o']));
    assert_eq!(replace_chars(&chars_of("aXbXX"), &vec!['X'], &vec!['y', 'z']), chars_of("ayzbyzyz"));
    assert_eq!(replace_chars(&chars_of("aaa"), &vec!['a', 'a'], &vec!['b']), chars_of("ba"));
    assert_eq!(substring_bytes("héllo", 1, 3), "é");
}
