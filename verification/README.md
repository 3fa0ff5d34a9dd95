# renderer

The verified core of a Vulkan path-tracing renderer. The GPU driver calls
stay in ordinary Rust; the decisions and arithmetic between them are written
in Verus with their contracts proved.

- `src/` — the verified library: alignment arithmetic, the shader binding
  table layout and contents, shader groups and stages, the choice of the
  physical device, of its queue families (asking the surface only about the
  families the search needs) and of the swapchain configuration, the device
  feature and
  extension checks, SPIR-V decoding, the frames-in-flight and frame-counter
  state of the render loop and whether a frame is presented, submission
  synchronisation, and the small
  per-pass decisions (image formats, acceleration structure builds,
  rasterizer draws, texture bindings, GLSL struct declarations).
- `tests/` — tests of the library on concrete values.
- `app/` — the Vulkan side: instance, surface, device, queues, buffers,
  images, command buffers, pipelines and the camera controller, which hand
  plain values to the library and turn its results back into Vulkan
  structures.
