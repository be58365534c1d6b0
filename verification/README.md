# rust_learn_wgpu

A small wgpu program that draws rectangles where the mouse is held, split in two:

- `src/` is the verified library: keyboard and mouse button state frame by
  frame (`input`), the batching of rectangles into vertex and index lists and
  the sizing of the GPU buffers that hold them (`vertex`), and the decisions of
  a frame: surface size, what to do with the surface texture, which format to
  prefer, and what the input asks for (`frame`).
- `app/` is the program around it: the window and event loop (winit), the GPU
  (wgpu), the clock, and everything made of floating-point numbers (vertices,
  colours, cursor position). Its WGSL shader is in `app/shader.rs`.
