# slime_sim

A GPU slime-mould simulation (SDL2 window, OpenGL compute shaders).

- `src/` is the verified library: OpenGL enumerants and component sizes,
  texture units, vertex attribute layouts and the attribute pointers derived
  from them, the decisions taken on shader compile and program link reports,
  the window/keyboard input state machine, the camera direction asked for by
  held keys, and the compute dispatch sizes.
- `app/` is the program around it: the SDL2 window and event pump, every
  OpenGL call, the random initial cell placement and the floating-point
  camera.
- `tests/` runs the library on concrete values and checks its enumerants
  against the `gl` crate.
