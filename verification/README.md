# window_render

The window side of a renderer, verified with Verus: which windows are known, how their surfaces
are configured, when a frame is acquired, and how an offscreen texture gets to a window.

The library decides and its caller acts. Work that needs the window system or the GPU goes through
passes: state machines that take what the outside answered and return the next command. Surfaces,
textures, handles and layers stay with the caller and go by number.

- `src/window.rs`, `src/surface.rs`, `src/offscreen.rs`: the state, and the choice of presentation
  modes and formats.
- `src/extract.rs`: taking over the windows of the application.
- `src/create.rs`, `src/prepare.rs`, `src/blit.rs`, `src/metal_layer.rs`: the passes.
- `src/formats.rs`, `src/containers.rs`: what is taken on trust of `wgpu`, `bevy_window`,
  `bevy_ecs` and `bevy_platform`.
- `src/pending.rs`: lemmas on the lists of windows that passes work through.
- `src/laws.rs`, `src/laws/`: what holds over several calls, proved.
- `app/`: the passes as systems of a `bevy_app` application.
- `tests/`: the library on concrete values.
