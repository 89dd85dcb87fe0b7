# render_scene

The verified core of a small wgpu viewer that draws a two-face model in a
window.

- `src/` is the library, checked with Verus. It holds what the viewer
  decides: whether the model is shown and when a redraw is owed, which
  pass and clear colour each frame records, how the faces are merged into
  one vertex and index buffer with one draw per face, which pipelines are
  built once and shared, the fixed pipeline and surface settings, and the
  vertex-buffer layout. The contracts are stated over `Seq` and `Map`
  views; the laws are public proof functions beside the code they speak of.
- `app/` is the program: the winit event loop, wgpu device and surface
  set-up, buffer uploads and command recording, the floating-point vertex
  and colour data, and the shader sources. It turns the library's plain
  values into wgpu calls.
- `tests/` run the library on concrete values.
