//! Integer logic of a cube-world ray tracer: how the frame's pixels are laid
//! out while they are traced and copied to the screen (`frame`), and how a hit
//! point on a cube is assigned a face, an outward normal and the axes of its
//! texture coordinates (`face`).
pub mod face;
pub mod frame;
