# wglymr-node-editor

The interaction and scheduling core of a node-graph editor that renders into
browser canvases, written in Verus.

- `src/` is the verified library: document adapters and the test document,
  selection and hover state, the pointer operators (select, node drag, box
  select, link drag) and the dispatcher that hands over between them, the
  engine's views, the GPU-side view registry, the redraw scheduler and the
  runtime that ties them together, draw ordering, hit priority, socket/edge
  topology of the render model, and the text layout cache. Coordinates are
  carried as `f32` bit patterns and never computed with.
- `app/` is the browser shell: floating-point geometry and layout, the
  geometric half of hit testing, draw lists, cosmic-text shaping, wgpu
  surfaces, JSON commands, logging and the `wasm-bindgen` entry points.
- `tests/` exercises the library on concrete values.
