# Telera

A small desktop interface: a window with a sidebar of pages, laid out with
clay and drawn with wgpu. The library under `src/` holds its decisions,
each with a contract proved by Verus:

- `sidebar` — palette, page labels, how each sidebar button looks, and which
  page a frame's clicks select;
- `layout` — the whole frame as a well-nested sequence of elements and texts;
- `input` — how window events change the interface state and what the window
  must do in answer (exit, resize, render, redraw);
- `surface` — the surface format choice and how the surface size follows the
  window;
- `mesh` — vertices (float components held as their bit patterns), the
  triangle and quad meshes, and the bytes of a vertex buffer;
- `pipeline` — the pixel format and vertex layouts gathered for the pipeline;
- `icon` — the window icon decoded from an image.

`app/` is the program around it: the winit event loop, the wgpu device and
surface, and the clay calls that replay the library's layout.
