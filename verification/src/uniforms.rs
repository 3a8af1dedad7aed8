use vstd::prelude::*;

verus! {

/// The one record that control logic and shader logic share. It is computed anew
/// and uploaded before every draw, and kept no longer than the frame.
///
/// Lengths are whole pixels and time is whole milliseconds; whoever uploads the
/// block turns them into the shader's number format.
#[derive(Clone, Copy, Debug, PartialEq, Eq, Structural)]
pub struct UniformBlock {
    /// Width of the drawable area, in pixels.
    pub width: u32,
    /// Height of the drawable area, in pixels.
    pub height: u32,
    /// Simulation time since start, in milliseconds.
    pub time_ms: i128,
    /// Which pass of the frame the shared shader program is to run.
    pub pass_index: u32,
}

} // verus!
