//! A cellular-automaton simulation pipeline: a double-buffered engine
//! that advances and colorizes the automaton one generation per step, and
//! a frame compositor that lays each frame out as two ordered subpasses,
//! the simulation image through a viewport transform first and an
//! externally produced overlay over the full target second.

pub mod color;
pub mod life;
pub mod game_compute_pipeline;
pub mod transform;
pub mod final_render_pass;
