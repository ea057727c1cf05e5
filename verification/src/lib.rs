//! Reconstruction of a scan-line-oriented video coprocessor's display output:
//! a byte arena for the emulated chip's memory and per-scan-line register
//! snapshots, a compiler from mode-line descriptors to a quad mesh with
//! bit-packed per-vertex attributes, and an aggregator that folds a per-pixel
//! collision texture into a per-scan-line bitmask through a ring of readback
//! slots.
use vstd::prelude::*;

pub mod antic_data;
pub mod collisions;
pub mod mesh;
pub mod resources;

pub use antic_data::AnticData;
pub use collisions::CollisionsData;
pub use resources::AnticConfig;

verus! {

/// Size in bytes of one serialized register row.
pub const GTIA_REGS_ROW_SIZE: usize = 32;

/// Number of scan lines that carry a register row.
pub const GTIA_REGS_ROWS: usize = 240;

/// Size in bytes of the register region at the start of the arena.
pub const GTIA_REGS_MEMORY: usize = GTIA_REGS_ROWS * GTIA_REGS_ROW_SIZE;

/// Size in bytes of the bump-allocated region that follows the register region.
pub const ANTIC_BITMAP_MEMORY: usize = 256 * 11 * 4 * 4;

/// Total arena capacity: register region plus bump-allocated region.
pub const ANTIC_MEMORY_SIZE: usize = GTIA_REGS_MEMORY + ANTIC_BITMAP_MEMORY;

/// Width in bytes of one row of the byte texture the arena is uploaded as.
pub const DATA_TEXTURE_WIDTH: usize = 256;

/// Height in rows of the byte texture the arena is uploaded as.
pub const DATA_TEXTURE_HEIGHT: usize = 11 * 4 * 4 + GTIA_REGS_MEMORY / 256;

/// The arena fills its upload texture exactly: the fixed 256-byte row stride
/// times the row count is the arena's capacity, so the upload can never read
/// past the arena nor leave rows of the texture stale.
pub proof fn lemma_arena_fills_data_texture()
    ensures
        DATA_TEXTURE_WIDTH * DATA_TEXTURE_HEIGHT == ANTIC_MEMORY_SIZE,
{
}

/// Byte size of the main render target's initial payload: the visible
/// display at four bytes per pixel.
pub const MAIN_IMAGE_BYTES: usize = 384 * 240 * 4;

/// The initial pixel payload of the main render target: every channel of
/// every pixel mid-grey. Creating the texture around it is the host
/// renderer's business.
pub fn main_image_pixels() -> (v: Vec<u8>)
    ensures
        v@.len() == MAIN_IMAGE_BYTES,
        forall|i: int| 0 <= i < MAIN_IMAGE_BYTES ==> v@[i] == 128u8,
{
    vec![128u8; MAIN_IMAGE_BYTES]
}

/// Descriptor of one mode line: a horizontal band of the display that shares
/// one display mode and one pair of memory offsets over one or more scan lines.
#[derive(Debug, Clone, Copy)]
pub struct ModeLineDescr {
    pub mode: u8,
    pub scan_line: usize,
    pub width: usize,
    pub height: usize,
    pub n_bytes: usize,
    pub line_voffset: usize,
    pub data_offset: usize,
    pub chbase: u8,
    pub pmbase: u8,
    pub hscrol: u8,
    pub video_memory_offset: usize,
    pub charset_memory_offset: usize,
}

impl ModeLineDescr {
    /// Field bounds under which the four packed attribute words are lossless.
    pub open spec fn valid(self) -> bool {
        &&& self.scan_line < 256
        &&& self.height < 0x10000
        &&& self.width < 0x20000
        &&& self.line_voffset < 256
        &&& self.video_memory_offset < 0x1_0000_0000
        &&& self.charset_memory_offset < 0x1_0000_0000
    }

    /// The scan line on which the following mode line begins.
    pub fn next_mode_line(&self) -> (r: usize)
        requires
            self.scan_line + self.height <= usize::MAX,
        ensures
            r == self.scan_line + self.height,
    {
        self.scan_line + self.height
    }

    pub open spec fn spec_charset_size(self) -> usize {
        if 2 <= self.mode <= 5 {
            1024
        } else if 6 <= self.mode <= 7 {
            512
        } else {
            0
        }
    }

    /// Byte size of the character set that this display mode reads.
    pub fn charset_size(&self) -> (r: usize)
        ensures
            r == self.spec_charset_size(),
    {
        match self.mode {
            2..=5 => 1024,
            6..=7 => 512,
            _ => 0,
        }
    }
}

/// One scan line's snapshot of the color/sprite chip's registers: sprite and
/// missile horizontal positions and sizes, graphics bit patterns, color
/// registers and the priority byte.
#[derive(Clone, Copy, Debug)]
pub struct GTIARegs {
    pub hposp: [u8; 4],
    pub hposm: [u8; 4],
    pub sizep: [u8; 4],
    pub sizem: u8,
    pub grafp: [u8; 4],
    pub grafm: u8,
    pub col: [u8; 9],
    pub prior: u8,
    pub vdelay: u8,
    pub gractl: u8,
    pub hitclr: u8,
    pub consol: u8,
}

impl Default for GTIARegs {
    /// A register row with every register zero.
    fn default() -> (r: Self)
        ensures
            r.hposp@ =~= seq![0u8, 0u8, 0u8, 0u8],
            r.hposm@ =~= seq![0u8, 0u8, 0u8, 0u8],
            r.sizep@ =~= seq![0u8, 0u8, 0u8, 0u8],
            r.sizem == 0,
            r.grafp@ =~= seq![0u8, 0u8, 0u8, 0u8],
            r.grafm == 0,
            r.col@ =~= seq![0u8, 0u8, 0u8, 0u8, 0u8, 0u8, 0u8, 0u8, 0u8],
            r.prior == 0,
            r.vdelay == 0,
            r.gractl == 0,
            r.hitclr == 0,
            r.consol == 0,
    {
        GTIARegs {
            hposp: [0u8; 4],
            hposm: [0u8; 4],
            sizep: [0u8; 4],
            sizem: 0,
            grafp: [0u8; 4],
            grafm: 0,
            col: [0u8; 9],
            prior: 0,
            vdelay: 0,
            gractl: 0,
            hitclr: 0,
            consol: 0,
        }
    }
}

} // verus!
