//! Shader-facing configuration, laid out to match the GPU-side uniform block.
use vstd::prelude::*;

verus! {

/// Configuration handed to the shader: the scan line highlighted while the
/// display is paused, a frame counter, and padding that keeps the block's
/// GPU-side size.
#[derive(Clone, Copy, Debug, PartialEq, Eq, Structural)]
pub struct AnticConfig {
    pub debug_scan_line: i32,
    pub cnt: i32,
    pub _padding_1: i32,
    pub _padding_2: i32,
}

impl Default for AnticConfig {
    /// The initial configuration: the highlight sits on the first visible
    /// scan line and the counter starts at zero.
    fn default() -> (r: Self)
        ensures
            r.debug_scan_line == 8,
            r.cnt == 0,
            r._padding_1 == 0,
            r._padding_2 == 0,
    {
        AnticConfig { debug_scan_line: 8, cnt: 0, _padding_1: 0, _padding_2: 0 }
    }
}

} // verus!
