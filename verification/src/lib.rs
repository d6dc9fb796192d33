//! The verified core of a GPU slime-mould simulation: the OpenGL enumerations
//! and sizes the renderer hands to the driver, the vertex attribute layout
//! and the offsets derived from it, the outcome of shader compilation and
//! program linking, and the window/keyboard input state machine.
pub mod game;
pub mod render;
