# kelp_2d

A 2D renderer in two parts.

- `src/` is the library, verified with Verus. It decides what a renderer asks of the GPU and keeps
  the state between calls: how it starts (`setup`, `limits`), what a list of instances comes to
  (`batches`, `render_list`), and the operations themselves (`kelp`). `laws` states what holds of
  all of it together.
- `app/` performs those decisions with wgpu. The texture cache and the pipeline cache are traits
  there. So is the renderer of the user interface: the Dear ImGui backend for wgpu that it is meant
  for is not published on crates.io, so the program that owns the interface brings it.

Floating point numbers enter the library as their bit patterns.
