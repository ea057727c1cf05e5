//! Quad mesh produced by the mode-line compiler: one quad per mode line, with
//! fixed unit-square texture coordinates and four bit-packed custom-attribute
//! words repeated on each of the quad's four vertices.
use vstd::prelude::*;

use crate::ModeLineDescr;

verus! {

/// Horizontal extent of the emulated display in pixels; every quad spans it.
pub const DISPLAY_WIDTH: i32 = 384;

/// Vertical extent of the emulated display in pixels.
pub const DISPLAY_HEIGHT: i32 = 240;

/// Scan lines of vertical blanking above the first visible line.
pub const SCAN_LINE_MARGIN: i32 = 8;

/// A vertex position. Coordinates are whole pixels; the GPU upload path turns
/// them into floats unchanged.
#[derive(Clone, Copy, Debug, PartialEq, Eq, Structural)]
pub struct Vertex3 {
    pub x: i32,
    pub y: i32,
    pub z: i32,
}

/// A texture coordinate; each component is 0 or 1 on a quad corner.
#[derive(Clone, Copy, Debug, PartialEq, Eq, Structural)]
pub struct Uv {
    pub u: u8,
    pub v: u8,
}

/// The four packed custom-attribute words carried by one vertex. The GPU
/// upload path hands each word to the shader as a float holding this exact
/// bit pattern; the shader reinterprets, never converts.
#[derive(Clone, Copy, Debug, PartialEq, Eq, Structural)]
pub struct CustomAttr {
    pub w0: u32,
    pub w1: u32,
    pub w2: u32,
    pub w3: u32,
}

/// Packs three fields into one word: `lo` in bits 0..8, `mid` in bits 8..16,
/// `hi` in bits 16..32.
pub open spec fn pack_word(lo: u32, mid: u32, hi: u32) -> u32 {
    lo | (mid << 8) | (hi << 16)
}

/// Bits 0..8 of a packed word.
pub open spec fn unpack_lo(w: u32) -> u32 {
    w & 0xff
}

/// Bits 8..16 of a packed word.
pub open spec fn unpack_mid(w: u32) -> u32 {
    (w >> 8) & 0xff
}

/// Bits 16..32 of a packed word.
pub open spec fn unpack_hi(w: u32) -> u32 {
    w >> 16
}

/// A word packed from fields within their bit widths decodes to exactly those
/// fields.
pub proof fn lemma_pack_round_trip(lo: u32, mid: u32, hi: u32)
    requires
        lo < 0x100,
        mid < 0x100,
        hi < 0x10000,
    ensures
        unpack_lo(pack_word(lo, mid, hi)) == lo,
        unpack_mid(pack_word(lo, mid, hi)) == mid,
        unpack_hi(pack_word(lo, mid, hi)) == hi,
{
    assert((lo | (mid << 8) | (hi << 16)) & 0xff == lo) by (bit_vector)
        requires
            lo < 0x100,
            mid < 0x100,
            hi < 0x10000,
    ;
    assert(((lo | (mid << 8) | (hi << 16)) >> 8) & 0xff == mid) by (bit_vector)
        requires
            lo < 0x100,
            mid < 0x100,
            hi < 0x10000,
    ;
    assert((lo | (mid << 8) | (hi << 16)) >> 16 == hi) by (bit_vector)
        requires
            lo < 0x100,
            mid < 0x100,
            hi < 0x10000,
    ;
}

/// The custom-attribute words of one mode line:
/// word 0 packs mode, scan line and height; word 1 packs the horizontal
/// fine-scroll, the vertical charset offset and half the width; words 2 and 3
/// carry the two arena offsets.
pub open spec fn custom_attr_of(ml: ModeLineDescr) -> CustomAttr {
    CustomAttr {
        w0: pack_word(ml.mode as u32, ml.scan_line as u32, ml.height as u32),
        w1: pack_word(ml.hscrol as u32, ml.line_voffset as u32, (ml.width / 2) as u32),
        w2: ml.video_memory_offset as u32,
        w3: ml.charset_memory_offset as u32,
    }
}

/// The mesh y coordinate of a mode line's top edge: scan lines count top-down
/// from above the visible area, mesh y counts bottom-up.
pub open spec fn quad_top_y(ml: ModeLineDescr) -> i32 {
    (DISPLAY_HEIGHT + SCAN_LINE_MARGIN - ml.scan_line) as i32
}

/// The mesh y coordinate of a mode line's bottom edge.
pub open spec fn quad_bottom_y(ml: ModeLineDescr) -> i32 {
    (DISPLAY_HEIGHT + SCAN_LINE_MARGIN - ml.scan_line - ml.height) as i32
}

/// The four corners of a mode line's quad, in the fixed winding order
/// south-west, north-west, north-east, south-east.
pub open spec fn quad_positions(ml: ModeLineDescr) -> Seq<Vertex3> {
    seq![
        (Vertex3 { x: 0, y: quad_bottom_y(ml), z: 0 }),
        (Vertex3 { x: 0, y: quad_top_y(ml), z: 0 }),
        (Vertex3 { x: DISPLAY_WIDTH, y: quad_top_y(ml), z: 0 }),
        (Vertex3 { x: DISPLAY_WIDTH, y: quad_bottom_y(ml), z: 0 }),
    ]
}

/// The fixed unit-square texture coordinates of one quad.
pub open spec fn quad_uvs() -> Seq<Uv> {
    seq![
        (Uv { u: 0, v: 1 }),
        (Uv { u: 0, v: 0 }),
        (Uv { u: 1, v: 0 }),
        (Uv { u: 1, v: 1 }),
    ]
}

/// The custom-attribute words of one quad: four identical copies.
pub open spec fn quad_custom(ml: ModeLineDescr) -> Seq<CustomAttr> {
    seq![custom_attr_of(ml), custom_attr_of(ml), custom_attr_of(ml), custom_attr_of(ml)]
}

/// The six indices of one quad's two triangles, based at `off`.
pub open spec fn quad_indices(off: u16) -> Seq<u16>
    recommends
        off + 3 <= u16::MAX,
{
    seq![off, (off + 2) as u16, (off + 1) as u16, off, (off + 3) as u16, (off + 2) as u16]
}

/// Appends the four corner positions of one mode line's quad.
pub fn push_positions(positions: &mut Vec<Vertex3>, mode_line: &ModeLineDescr)
    requires
        mode_line.valid(),
    ensures
        final(positions)@ == old(positions)@ + quad_positions(*mode_line),
{
    let top: i32 = (DISPLAY_HEIGHT + SCAN_LINE_MARGIN) - (mode_line.scan_line as i32);
    let bottom: i32 = top - (mode_line.height as i32);
    positions.push(Vertex3 { x: 0, y: bottom, z: 0 });
    positions.push(Vertex3 { x: 0, y: top, z: 0 });
    positions.push(Vertex3 { x: DISPLAY_WIDTH, y: top, z: 0 });
    positions.push(Vertex3 { x: DISPLAY_WIDTH, y: bottom, z: 0 });
    assert(final(positions)@ =~= old(positions)@ + quad_positions(*mode_line));
}

/// Appends the fixed unit-square texture coordinates of one quad.
pub fn push_uvs(uvs: &mut Vec<Uv>)
    ensures
        final(uvs)@ == old(uvs)@ + quad_uvs(),
{
    uvs.push(Uv { u: 0, v: 1 });
    uvs.push(Uv { u: 0, v: 0 });
    uvs.push(Uv { u: 1, v: 0 });
    uvs.push(Uv { u: 1, v: 1 });
    assert(final(uvs)@ =~= old(uvs)@ + quad_uvs());
}

/// Appends four copies of one mode line's packed custom-attribute words.
pub fn push_custom(custom: &mut Vec<CustomAttr>, mode_line: &ModeLineDescr)
    requires
        mode_line.valid(),
    ensures
        final(custom)@ == old(custom)@ + quad_custom(*mode_line),
{
    let w0: u32 = (mode_line.mode as u32) | ((mode_line.scan_line as u32) << 8)
        | ((mode_line.height as u32) << 16);
    let w1: u32 = (mode_line.hscrol as u32) | ((mode_line.line_voffset as u32) << 8)
        | (((mode_line.width / 2) as u32) << 16);
    let w2: u32 = mode_line.video_memory_offset as u32;
    let w3: u32 = mode_line.charset_memory_offset as u32;
    let attr = CustomAttr { w0, w1, w2, w3 };
    custom.push(attr);
    custom.push(attr);
    custom.push(attr);
    custom.push(attr);
    assert(final(custom)@ =~= old(custom)@ + quad_custom(*mode_line));
}

/// Appends the six indices of one quad's two triangles, based at
/// `index_offset`.
pub fn push_indices(indices: &mut Vec<u16>, index_offset: u16)
    requires
        index_offset + 3 <= u16::MAX,
    ensures
        final(indices)@ == old(indices)@ + quad_indices(index_offset),
{
    indices.push(index_offset);
    indices.push(index_offset + 2);
    indices.push(index_offset + 1);
    indices.push(index_offset);
    indices.push(index_offset + 3);
    indices.push(index_offset + 2);
    assert(final(indices)@ =~= old(indices)@ + quad_indices(index_offset));
}

/// The vertex and index buffers of a compiled display list.
pub struct Mesh {
    pub positions: Vec<Vertex3>,
    pub uvs: Vec<Uv>,
    pub custom: Vec<CustomAttr>,
    pub indices: Vec<u16>,
}

impl Mesh {
    /// The number of quads the mesh holds.
    pub open spec fn quad_count(self) -> int {
        self.positions@.len() as int / 4
    }

    /// The buffers stay in lockstep: one quad contributes four vertices to
    /// each attribute buffer and six indices, and every index is in range.
    pub open spec fn wf(self) -> bool {
        &&& self.uvs@.len() == self.positions@.len()
        &&& self.custom@.len() == self.positions@.len()
        &&& self.positions@.len() % 4 == 0
        &&& self.positions@.len() <= 0x10000
        &&& self.indices@.len() * 2 == self.positions@.len() * 3
        &&& forall|i: int|
            0 <= i < self.indices@.len() ==> (self.indices@[i] as int) < self.positions@.len()
    }

    /// An empty mesh.
    pub fn new() -> (m: Mesh)
        ensures
            m.wf(),
            m.positions@ =~= Seq::<Vertex3>::empty(),
            m.uvs@ =~= Seq::<Uv>::empty(),
            m.custom@ =~= Seq::<CustomAttr>::empty(),
            m.indices@ =~= Seq::<u16>::empty(),
    {
        Mesh { positions: Vec::new(), uvs: Vec::new(), custom: Vec::new(), indices: Vec::new() }
    }

    /// Empties all four buffers without touching their backing storage.
    pub fn clear(&mut self)
        ensures
            final(self).wf(),
            final(self).positions@ =~= Seq::<Vertex3>::empty(),
            final(self).uvs@ =~= Seq::<Uv>::empty(),
            final(self).custom@ =~= Seq::<CustomAttr>::empty(),
            final(self).indices@ =~= Seq::<u16>::empty(),
    {
        self.positions.clear();
        self.uvs.clear();
        self.custom.clear();
        self.indices.clear();
    }

    /// A copy of the four buffers, consistent with the last completed
    /// mutation.
    pub fn snapshot(&self) -> (m: Mesh)
        ensures
            m.positions@ == self.positions@,
            m.uvs@ == self.uvs@,
            m.custom@ == self.custom@,
            m.indices@ == self.indices@,
    {
        let m = Mesh {
            positions: self.positions.clone(),
            uvs: self.uvs.clone(),
            custom: self.custom.clone(),
            indices: self.indices.clone(),
        };
        proof {
            assert(m.positions@ =~= self.positions@);
            assert(m.uvs@ =~= self.uvs@);
            assert(m.custom@ =~= self.custom@);
            assert(m.indices@ =~= self.indices@);
        }
        m
    }

    /// Appends exactly one quad for `mode_line`: four vertices in each
    /// attribute buffer and six indices based at the old vertex count.
    pub fn push_mode_line(&mut self, mode_line: &ModeLineDescr)
        requires
            old(self).wf(),
            mode_line.valid(),
            old(self).positions@.len() + 4 <= 0x10000,
        ensures
            final(self).wf(),
            final(self).positions@ == old(self).positions@ + quad_positions(*mode_line),
            final(self).uvs@ == old(self).uvs@ + quad_uvs(),
            final(self).custom@ == old(self).custom@ + quad_custom(*mode_line),
            final(self).indices@ == old(self).indices@ + quad_indices(
                old(self).positions@.len() as u16,
            ),
            final(self).quad_count() == old(self).quad_count() + 1,
    {
        let index_offset: u16 = self.positions.len() as u16;
        push_positions(&mut self.positions, mode_line);
        push_uvs(&mut self.uvs);
        push_custom(&mut self.custom, mode_line);
        push_indices(&mut self.indices, index_offset);
    }
}

/// Mesh cardinality: a well-formed mesh holding N quads has exactly 4N
/// entries in each attribute buffer, 6N indices, and every index value below
/// 4N.
pub proof fn lemma_mesh_cardinality(m: Mesh)
    requires
        m.wf(),
    ensures
        m.positions@.len() == 4 * m.quad_count(),
        m.uvs@.len() == 4 * m.quad_count(),
        m.custom@.len() == 4 * m.quad_count(),
        m.indices@.len() == 6 * m.quad_count(),
        forall|i: int|
            0 <= i < m.indices@.len() ==> (m.indices@[i] as int) < 4 * m.quad_count(),
{
    let len = m.positions@.len() as int;
    assert(len == 4 * (len / 4)) by {
        vstd::arithmetic::div_mod::lemma_fundamental_div_mod(len, 4);
    }
}

/// Packing round-trip: the four packed words of a valid descriptor decode to
/// exactly the original mode, scan line, height, fine-scroll fields, half
/// width and memory offsets.
pub proof fn lemma_custom_attr_round_trip(ml: ModeLineDescr)
    requires
        ml.valid(),
    ensures
        unpack_lo(custom_attr_of(ml).w0) == ml.mode,
        unpack_mid(custom_attr_of(ml).w0) == ml.scan_line,
        unpack_hi(custom_attr_of(ml).w0) == ml.height,
        unpack_lo(custom_attr_of(ml).w1) == ml.hscrol,
        unpack_mid(custom_attr_of(ml).w1) == ml.line_voffset,
        unpack_hi(custom_attr_of(ml).w1) == ml.width / 2,
        custom_attr_of(ml).w2 == ml.video_memory_offset,
        custom_attr_of(ml).w3 == ml.charset_memory_offset,
{
    lemma_pack_round_trip(ml.mode as u32, ml.scan_line as u32, ml.height as u32);
    lemma_pack_round_trip(ml.hscrol as u32, ml.line_voffset as u32, (ml.width / 2) as u32);
}

/// Splits a packed word back into its three fields, for consumers that decode
/// the attribute words on the CPU side.
pub fn decode_word(w: u32) -> (r: (u8, u8, u16))
    ensures
        r.0 == unpack_lo(w),
        r.1 == unpack_mid(w),
        r.2 == unpack_hi(w),
{
    proof {
        assert(w & 0xff < 0x100) by (bit_vector);
        assert((w >> 8) & 0xff < 0x100) by (bit_vector);
        assert(w >> 16 < 0x10000) by (bit_vector);
    }
    ((w & 0xff) as u8, ((w >> 8) & 0xff) as u8, (w >> 16) as u16)
}

} // verus!
