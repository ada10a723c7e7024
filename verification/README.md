# raydiance

The integer and text logic of a small physically based renderer and of its
blog, written in Verus with contracts proved for every function.

Numbers that the renderer keeps as `f32` are carried here as their bit
patterns: this code moves them around, and the floating point arithmetic
itself stays outside the library.

## Layout

- `src/gltf.rs`: the `.glb` container and the glTF document.
- `src/rds/`: importing a document into the renderer's scene, and the
  editable part of the scene (material models and texture replacements).
- `src/cpupt/`: the CPU path tracer's bookkeeping: image tiles, the
  bounding volume hierarchy layout, the render loop's sample progress.
- `src/editor/`: the editor's decisions on window and keyboard events, frame
  slots and the material editor.
- `src/blog/`: blog posts: directory names, ordering, custom Markdown
  elements, Markdown to HTML (parsing and writing by pulldown-cmark) and
  math rendering with KaTeX.
- `src/vulkan.rs`: the renderer's choices about its Vulkan device, surface
  and swapchain, on the flags the driver reports.
- `src/offline.rs`, `src/img.rs`, `src/debug/`: rendering configurations,
  checkerboard and animation frames.
- `app/`: the command line program around the library: files, JSON and RON
  parsing, HTML templates for the custom elements.
- `tests/`: tests of the library on concrete values.
