//! Dragon curve generation: the turn sequence obtained by folding a strip of
//! paper, and the turtle tracer that turns it into integer points with a
//! bounding box.

pub mod vectors;
pub mod fractal;
pub mod tracer;
