# pilka

The logic of a shader live-coding tool, verified with Verus.

- `src/` is the verified library: rounding of sizes and dispatch counts,
  the choice of Vulkan memory types, queue families, physical devices and
  swapchain settings, the decisions of frame capture and texture upload, the
  steps of a hot reload and the records it reads, the words of a SPIR-V
  module, the PNG encoding of screenshots,
  the command line, the keys that move the camera and drive the playback
  clock and the recorder, the removal of row padding from captured frames,
  the encoder options, and the sorting of a shader folder by stage.
- `tests/` runs the library on concrete values.
- `app/` is the window program around it: it reads the command line and the
  shader folder, reports the GPU through Vulkan, turns winit's events into
  the library's and runs the playback clock and the keys. It draws nothing:
  the renderer, the shader compiler and the file watcher are not part of
  it, so no frame ever reaches its recorder, and a screenshot only reports
  that there is no frame.
