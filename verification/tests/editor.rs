use std::collections::VecDeque;

use raydiance::editor::control_flow::{ControlFlow, Flow};
use raydiance::editor::frame_state::{FrameCounter, MAX_CONCURRENT_FRAMES};
use raydiance::editor::input_state::InputState;
use raydiance::editor::material_editor::{MaterialEditor, MaterialEditorState};
use raydiance::editor::window::{centered_position, Params, Window, WindowSize};
use raydiance::editor::{image_file_name, push_recent, Args, WindowEvent, Key, KeyState};
use raydiance::rds::{
    DynamicMaterial, DynamicScene, DynamicTexture, Material, MaterialField, MaterialModel, Scene,
    TextureFlags,
};

fn key(state: KeyState, key: Key) -> WindowEvent {
    WindowEvent::KeyboardInput { state, key: Some(key) }
}

#[test]
fn window_size_zero_needs_both_sides_zero() {
    assert!(WindowSize { w: 0, h: 0 }.is_zero());
    assert!(!WindowSize { w: 0, h: 3 }.is_zero());
    assert!(!WindowSize { w: 3, h: 0 }.is_zero());
    assert_eq!(WindowSize { w: 3, h: 4 }.to_tuple(), (3, 4));
}

#[test]
fn windows_are_centered() {
    assert_eq!(centered_position((1920, 1080), WindowSize { w: 1280, h: 720 }), (320, 180));
    assert_eq!(centered_position((101, 50), WindowSize { w: 100, h: 50 }), (0, 0));
}

#[test]
fn resizes_wait_for_the_swapchain() {
    let params = Params {
        title: "raydiance".to_string(),
        size: WindowSize { w: 800, h: 450 },
        min_size: WindowSize { w: 320, h: 180 },
        decorations: true,
    };
    let mut window = Window::create(&params);
    assert_eq!(window.title(), "raydiance");
    assert_eq!(window.size(), WindowSize { w: 800, h: 450 });
    assert_eq!(window.new_size(), WindowSize { w: 320, h: 180 });
    window.handle_event(&WindowEvent::Resized(WindowSize { w: 1024, h: 768 }));
    assert_eq!(window.size(), WindowSize { w: 800, h: 450 });
    assert_eq!(window.new_size(), WindowSize { w: 1024, h: 768 });
    window.handle_event(&WindowEvent::CloseRequested);
    assert_eq!(window.new_size(), WindowSize { w: 1024, h: 768 });
    window.handled_resize();
    assert_eq!(window.size(), WindowSize { w: 1024, h: 768 });
}

#[test]
fn keys_a_and_d_are_tracked() {
    let mut input = InputState::new();
    assert_eq!(input, InputState { a: false, d: false });
    input.handle_event(&key(KeyState::Pressed, Key::A));
    assert_eq!(input, InputState { a: true, d: false });
    input.handle_event(&key(KeyState::Pressed, Key::D));
    input.handle_event(&key(KeyState::Released, Key::A));
    assert_eq!(input, InputState { a: false, d: true });
    input.handle_event(&key(KeyState::Pressed, Key::Other));
    input.handle_event(&WindowEvent::KeyboardInput { state: KeyState::Released, key: None });
    input.handle_event(&WindowEvent::Other);
    assert_eq!(input, InputState { a: false, d: true });
}

#[test]
fn the_editor_exits_on_close_or_escape() {
    assert_eq!(ControlFlow::handle_event(&WindowEvent::CloseRequested), Flow::Exit);
    assert_eq!(ControlFlow::handle_event(&key(KeyState::Pressed, Key::Escape)), Flow::Exit);
    assert_eq!(ControlFlow::handle_event(&key(KeyState::Released, Key::Escape)), Flow::Exit);
    assert_eq!(ControlFlow::handle_event(&key(KeyState::Pressed, Key::A)), Flow::Continue);
    assert_eq!(
        ControlFlow::handle_event(&WindowEvent::Resized(WindowSize { w: 1, h: 1 })),
        Flow::Continue
    );
    assert_eq!(ControlFlow::handle_event(&WindowEvent::Other), Flow::Continue);
}

#[test]
fn frame_slots_cycle() {
    assert_eq!(MAX_CONCURRENT_FRAMES, 3);
    let mut counter = FrameCounter::new();
    let mut slots = vec![counter.frame_index()];
    for _ in 0..7 {
        counter.advance();
        slots.push(counter.frame_index());
    }
    assert_eq!(slots, vec![0, 1, 2, 0, 1, 2, 0, 1]);
    assert_eq!(counter.frame_count, 7);
}

#[test]
fn recent_values_are_bounded_newest_first() {
    let mut values = VecDeque::new();
    for v in 1..=5 {
        push_recent(&mut values, v, 3);
    }
    assert_eq!(values, VecDeque::from(vec![5, 4, 3]));
}

#[test]
fn saved_images_are_named() {
    assert_eq!(image_file_name("", "20240102-030405"), "20240102-030405.png");
    assert_eq!(image_file_name("render", "20240102-030405"), "render.png");
}

#[test]
fn editor_args_hold_the_scene_path() {
    let args = Args { glb_scene: "scene.glb".to_string() };
    assert_eq!(args.glb_scene, "scene.glb");
}

fn one_material_scene() -> (Scene, DynamicScene) {
    let scene = Scene {
        cameras: vec![],
        meshes: vec![],
        materials: vec![Material {
            name: "cube".to_string(),
            model: MaterialModel::Disney,
            base_color: 0,
            metallic: 1,
            roughness: 2,
            specular: 3,
            specular_tint: 4,
            sheen: 5,
            sheen_tint: 6,
        }],
        textures: vec![],
    };
    let textures: Vec<DynamicTexture> = (10..17).map(DynamicTexture::Scalar).collect();
    let dyn_scene = DynamicScene {
        materials: vec![DynamicMaterial {
            model: MaterialModel::Disney,
            base_color: 0,
            metallic: 1,
            roughness: 2,
            specular: 3,
            specular_tint: 4,
            sheen: 5,
            sheen_tint: 6,
        }],
        default_textures: textures.clone(),
        textures,
        replaced_textures: TextureFlags::cleared(7),
    };
    (scene, dyn_scene)
}

#[test]
fn the_material_editor_edits_the_selected_material() {
    let (mut scene, mut dyn_scene) = one_material_scene();
    let mut state = MaterialEditorState::new();
    assert_eq!(state.selected_material, 0);
    {
        let mut editor = MaterialEditor::new(&mut state, &mut scene, &mut dyn_scene);
        editor.select_material(0);
        editor.set_model(MaterialModel::Diffuse);
        editor.edit_field(MaterialField::Roughness, DynamicTexture::Scalar(99));
        editor.edit_field(MaterialField::Sheen, DynamicTexture::Scalar(98));
        editor.set_field_replaced(MaterialField::Sheen, false);
        editor.reset_field(MaterialField::Roughness);
    }
    assert_eq!(dyn_scene.materials[0].model, MaterialModel::Diffuse);
    assert_eq!(dyn_scene.textures[2], DynamicTexture::Scalar(12));
    assert!(!dyn_scene.replaced_textures.get(2));
    assert_eq!(dyn_scene.textures[5], DynamicTexture::Scalar(98));
    assert!(!dyn_scene.replaced_textures.get(5));
    let mut editor = MaterialEditor::new(&mut state, &mut scene, &mut dyn_scene);
    editor.set_field_replaced(MaterialField::Sheen, true);
    assert!(dyn_scene.replaced_textures.get(5));
}
