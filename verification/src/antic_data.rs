//! The frame-transient core state: the byte arena holding register rows and
//! bump-allocated chip memory, the mesh under construction, and the optional
//! collision readback ring.
use vstd::prelude::*;

use crate::collisions::COLLISIONS_RING_SIZE;
use crate::collisions::CollisionsData;
use crate::mesh::Mesh;
use crate::mesh::quad_custom;
use crate::mesh::quad_indices;
use crate::mesh::quad_positions;
use crate::mesh::quad_uvs;
use crate::mesh::Uv;
use crate::mesh::Vertex3;
use crate::mesh::CustomAttr;
use crate::resources::AnticConfig;
use crate::ANTIC_BITMAP_MEMORY;
use crate::ANTIC_MEMORY_SIZE;
use crate::GTIA_REGS_MEMORY;
use crate::GTIA_REGS_ROW_SIZE;
use crate::GTIA_REGS_ROWS;
use crate::GTIARegs;
use crate::ModeLineDescr;

verus! {

/// Scan line count past which no beam marker is drawn: the visible display
/// plus the blanking margins above and below it.
pub const LAST_MARKER_SCAN_LINE: usize = 248;

/// Width of the quad that drives the collision-aggregation draw pass.
pub const AGG_MESH_WIDTH: i32 = 120;

/// Height of the quad that drives the collision-aggregation draw pass.
pub const AGG_MESH_HEIGHT: i32 = 384;

/// The byte-exact serialization of one register row, in the fixed field order
/// the shader's stride assumption depends on.
pub open spec fn gtia_regs_bytes(r: GTIARegs) -> Seq<u8> {
    seq![
        r.hposp@[0],
        r.hposp@[1],
        r.hposp@[2],
        r.hposp@[3],
        r.hposm@[0],
        r.hposm@[1],
        r.hposm@[2],
        r.hposm@[3],
        r.sizep@[0],
        r.sizep@[1],
        r.sizep@[2],
        r.sizep@[3],
        r.sizem,
        r.grafp@[0],
        r.grafp@[1],
        r.grafp@[2],
        r.grafp@[3],
        r.grafm,
        r.col@[0],
        r.col@[1],
        r.col@[2],
        r.col@[3],
        r.col@[4],
        r.col@[5],
        r.col@[6],
        r.col@[7],
        r.col@[8],
        r.prior,
        r.vdelay,
        r.gractl,
        r.hitclr,
        r.consol,
    ]
}

/// Fixed stride: one serialized register row is exactly `GTIA_REGS_ROW_SIZE`
/// bytes, whatever the register values.
pub proof fn lemma_gtia_row_stride(r: GTIARegs)
    ensures
        gtia_regs_bytes(r).len() == GTIA_REGS_ROW_SIZE,
{
}

/// Serializes one register row into its fixed 32-byte layout.
pub fn gtia_regs_to_bytes(regs: &GTIARegs) -> (v: Vec<u8>)
    ensures
        v@ == gtia_regs_bytes(*regs),
        v@.len() == GTIA_REGS_ROW_SIZE,
{
    let mut v: Vec<u8> = Vec::new();
    v.push(regs.hposp[0]);
    v.push(regs.hposp[1]);
    v.push(regs.hposp[2]);
    v.push(regs.hposp[3]);
    v.push(regs.hposm[0]);
    v.push(regs.hposm[1]);
    v.push(regs.hposm[2]);
    v.push(regs.hposm[3]);
    v.push(regs.sizep[0]);
    v.push(regs.sizep[1]);
    v.push(regs.sizep[2]);
    v.push(regs.sizep[3]);
    v.push(regs.sizem);
    v.push(regs.grafp[0]);
    v.push(regs.grafp[1]);
    v.push(regs.grafp[2]);
    v.push(regs.grafp[3]);
    v.push(regs.grafm);
    v.push(regs.col[0]);
    v.push(regs.col[1]);
    v.push(regs.col[2]);
    v.push(regs.col[3]);
    v.push(regs.col[4]);
    v.push(regs.col[5]);
    v.push(regs.col[6]);
    v.push(regs.col[7]);
    v.push(regs.col[8]);
    v.push(regs.prior);
    v.push(regs.vdelay);
    v.push(regs.gractl);
    v.push(regs.hitclr);
    v.push(regs.consol);
    assert(v@ =~= gtia_regs_bytes(*regs));
    v
}

/// The descriptor of the cosmetic one-line beam marker drawn at the current
/// scan-line cursor while the display is paused.
pub open spec fn beam_marker(scan_line: usize) -> ModeLineDescr {
    ModeLineDescr {
        mode: 0,
        scan_line,
        width: 384,
        height: 1,
        n_bytes: 0,
        line_voffset: 0,
        data_offset: 0,
        chbase: 0,
        pmbase: 0,
        hscrol: 0,
        video_memory_offset: 0,
        charset_memory_offset: 0,
    }
}

/// The per-frame state shared between the emulation writer and the render
/// extraction step: the byte arena, the mesh under construction, the shader
/// configuration and the optional collision readback ring.
pub struct AnticData {
    pub memory: Vec<u8>,
    pub memory_used: usize,
    pub scanlines: usize,
    pub mesh: Mesh,
    pub config: AnticConfig,
    pub collisions_data: Option<CollisionsData>,
}

impl AnticData {
    /// The arena keeps its fixed capacity, the bump cursor stays inside the
    /// bitmap region, and the mesh buffers stay in lockstep.
    pub open spec fn wf(self) -> bool {
        &&& self.memory@.len() == ANTIC_MEMORY_SIZE
        &&& self.memory_used <= ANTIC_BITMAP_MEMORY
        &&& self.mesh.wf()
        &&& match self.collisions_data {
            Some(c) => c.wf(),
            None => true,
        }
    }

    /// A fresh, zeroed arena with an empty mesh; with `collisions` set, a
    /// collision readback ring is attached.
    pub fn new(collisions: bool) -> (r: Self)
        ensures
            r.wf(),
            forall|i: int| 0 <= i < ANTIC_MEMORY_SIZE ==> r.memory@[i] == 0u8,
            r.memory_used == 0,
            r.scanlines == 0,
            r.mesh.positions@ =~= Seq::<Vertex3>::empty(),
            r.mesh.uvs@ =~= Seq::<Uv>::empty(),
            r.mesh.custom@ =~= Seq::<CustomAttr>::empty(),
            r.mesh.indices@ =~= Seq::<u16>::empty(),
            r.config.debug_scan_line == 8,
            r.config.cnt == 0,
            collisions ==> (r.collisions_data matches Some(c) && c.ring_size
                == COLLISIONS_RING_SIZE && c.write_index == 0 && forall|x: int|
                0 <= x < c.aggregate@.len() ==> c.aggregate@[x] == 0u64),
            !collisions ==> r.collisions_data is None,
    {
        let collisions_data: Option<CollisionsData> = if collisions {
            Some(CollisionsData::new(COLLISIONS_RING_SIZE))
        } else {
            None
        };
        AnticData {
            memory: vec![0u8; ANTIC_MEMORY_SIZE],
            memory_used: 0,
            scanlines: 0,
            mesh: Mesh::new(),
            config: AnticConfig::default(),
            collisions_data,
        }
    }

    /// Writes one register row into the register region, at the row's fixed
    /// 32-byte stride; the bump-allocated region and every other row keep
    /// their bytes.
    pub fn set_gtia_regs(&mut self, scan_line: usize, regs: &GTIARegs)
        requires
            old(self).wf(),
            scan_line < GTIA_REGS_ROWS,
        ensures
            final(self).wf(),
            forall|i: int|
                0 <= i < GTIA_REGS_ROW_SIZE ==> final(self).memory@[scan_line * GTIA_REGS_ROW_SIZE
                    + i] == gtia_regs_bytes(*regs)[i],
            forall|i: int|
                0 <= i < ANTIC_MEMORY_SIZE && !(scan_line * GTIA_REGS_ROW_SIZE <= i < scan_line
                    * GTIA_REGS_ROW_SIZE + GTIA_REGS_ROW_SIZE) ==> final(self).memory@[i] == old(
                    self,
                ).memory@[i],
            final(self).memory_used == old(self).memory_used,
            final(self).scanlines == old(self).scanlines,
            final(self).mesh == old(self).mesh,
            final(self).config == old(self).config,
            final(self).collisions_data == old(self).collisions_data,
    {
        let row = gtia_regs_to_bytes(regs);
        let base: usize = scan_line * GTIA_REGS_ROW_SIZE;
        let mut j: usize = 0;
        while j < GTIA_REGS_ROW_SIZE
            invariant
                old(self).wf(),
                scan_line < GTIA_REGS_ROWS,
                base == scan_line * GTIA_REGS_ROW_SIZE,
                j <= GTIA_REGS_ROW_SIZE,
                row@ == gtia_regs_bytes(*regs),
                self.memory@.len() == ANTIC_MEMORY_SIZE,
                forall|i: int| 0 <= i < j ==> self.memory@[base + i] == gtia_regs_bytes(*regs)[i],
                forall|i: int|
                    0 <= i < ANTIC_MEMORY_SIZE && !(base <= i < base + j) ==> self.memory@[i]
                        == old(self).memory@[i],
                self.memory_used == old(self).memory_used,
                self.scanlines == old(self).scanlines,
                self.mesh == old(self).mesh,
                self.config == old(self).config,
                self.collisions_data == old(self).collisions_data,
            decreases GTIA_REGS_ROW_SIZE - j,
        {
            self.memory[base + j] = row[j];
            j += 1;
        }
    }

    /// Reserves `data.len()` bytes past the bump cursor inside the bitmap
    /// region, fills them with `data`, and returns the reservation's offset
    /// relative to the start of the bitmap region.
    pub fn reserve_antic_memory(&mut self, data: &[u8]) -> (offset: usize)
        requires
            old(self).wf(),
            old(self).memory_used + data@.len() <= ANTIC_BITMAP_MEMORY,
        ensures
            final(self).wf(),
            offset == old(self).memory_used,
            final(self).memory_used == old(self).memory_used + data@.len(),
            forall|i: int|
                0 <= i < data@.len() ==> final(self).memory@[GTIA_REGS_MEMORY + offset + i]
                    == data@[i],
            forall|i: int|
                0 <= i < ANTIC_MEMORY_SIZE && !(GTIA_REGS_MEMORY + offset <= i < GTIA_REGS_MEMORY
                    + offset + data@.len()) ==> final(self).memory@[i] == old(self).memory@[i],
            final(self).scanlines == old(self).scanlines,
            final(self).mesh == old(self).mesh,
            final(self).config == old(self).config,
            final(self).collisions_data == old(self).collisions_data,
    {
        let offset: usize = self.memory_used;
        let len: usize = data.len();
        let base: usize = GTIA_REGS_MEMORY + offset;
        let mut j: usize = 0;
        while j < len
            invariant
                old(self).wf(),
                offset == old(self).memory_used,
                len == data@.len(),
                offset + len <= ANTIC_BITMAP_MEMORY,
                base == GTIA_REGS_MEMORY + offset,
                j <= len,
                self.memory@.len() == ANTIC_MEMORY_SIZE,
                forall|i: int| 0 <= i < j ==> self.memory@[base + i] == data@[i],
                forall|i: int|
                    0 <= i < ANTIC_MEMORY_SIZE && !(base <= i < base + j) ==> self.memory@[i]
                        == old(self).memory@[i],
                self.memory_used == old(self).memory_used,
                self.scanlines == old(self).scanlines,
                self.mesh == old(self).mesh,
                self.config == old(self).config,
                self.collisions_data == old(self).collisions_data,
            decreases len - j,
        {
            self.memory[base + j] = data[j];
            j += 1;
        }
        self.memory_used = offset + len;
        offset
    }

    /// Resets the bump cursor and the scan-line cursor and empties the mesh,
    /// keeping the arena's backing bytes for steady frame-to-frame reuse.
    pub fn clear(&mut self)
        requires
            old(self).wf(),
        ensures
            final(self).wf(),
            final(self).memory_used == 0,
            final(self).scanlines == 0,
            final(self).mesh.positions@ =~= Seq::<Vertex3>::empty(),
            final(self).mesh.uvs@ =~= Seq::<Uv>::empty(),
            final(self).mesh.custom@ =~= Seq::<CustomAttr>::empty(),
            final(self).mesh.indices@ =~= Seq::<u16>::empty(),
            final(self).memory == old(self).memory,
            final(self).config == old(self).config,
            final(self).collisions_data == old(self).collisions_data,
    {
        self.memory_used = 0;
        self.scanlines = 0;
        self.mesh.clear();
    }

    /// Appends exactly one quad for `mode_line` and advances the scan-line
    /// cursor to the line past the mode line's band.
    pub fn insert_mode_line(&mut self, mode_line: &ModeLineDescr)
        requires
            old(self).wf(),
            mode_line.valid(),
            old(self).mesh.positions@.len() + 4 <= 0x10000,
        ensures
            final(self).wf(),
            final(self).scanlines == mode_line.scan_line + mode_line.height,
            final(self).mesh.positions@ == old(self).mesh.positions@ + quad_positions(*mode_line),
            final(self).mesh.uvs@ == old(self).mesh.uvs@ + quad_uvs(),
            final(self).mesh.custom@ == old(self).mesh.custom@ + quad_custom(*mode_line),
            final(self).mesh.indices@ == old(self).mesh.indices@ + quad_indices(
                old(self).mesh.positions@.len() as u16,
            ),
            final(self).mesh.quad_count() == old(self).mesh.quad_count() + 1,
            final(self).memory == old(self).memory,
            final(self).memory_used == old(self).memory_used,
            final(self).config == old(self).config,
            final(self).collisions_data == old(self).collisions_data,
    {
        self.scanlines = mode_line.scan_line + mode_line.height;
        self.mesh.push_mode_line(mode_line);
    }

    /// A consistent snapshot of the mesh for the renderer; while the display
    /// is paused short of the last scan line, one extra one-line quad marks
    /// the beam position at the current scan-line cursor.
    pub fn create_mesh(&self) -> (m: Mesh)
        requires
            self.wf(),
            self.mesh.positions@.len() + 4 <= 0x10000,
        ensures
            m.wf(),
            self.scanlines < LAST_MARKER_SCAN_LINE ==> {
                &&& m.positions@ == self.mesh.positions@ + quad_positions(
                    beam_marker(self.scanlines),
                )
                &&& m.uvs@ == self.mesh.uvs@ + quad_uvs()
                &&& m.custom@ == self.mesh.custom@ + quad_custom(beam_marker(self.scanlines))
                &&& m.indices@ == self.mesh.indices@ + quad_indices(
                    self.mesh.positions@.len() as u16,
                )
                &&& m.quad_count() == self.mesh.quad_count() + 1
            },
            self.scanlines >= LAST_MARKER_SCAN_LINE ==> {
                &&& m.positions@ == self.mesh.positions@
                &&& m.uvs@ == self.mesh.uvs@
                &&& m.custom@ == self.mesh.custom@
                &&& m.indices@ == self.mesh.indices@
                &&& m.quad_count() == self.mesh.quad_count()
            },
    {
        let mut m = self.mesh.snapshot();
        if self.scanlines < LAST_MARKER_SCAN_LINE {
            let marker = ModeLineDescr {
                mode: 0,
                scan_line: self.scanlines,
                width: 384,
                height: 1,
                n_bytes: 0,
                line_voffset: 0,
                data_offset: 0,
                chbase: 0,
                pmbase: 0,
                hscrol: 0,
                video_memory_offset: 0,
                charset_memory_offset: 0,
            };
            assert(marker == beam_marker(self.scanlines));
            m.push_mode_line(&marker);
        }
        m
    }

    /// The fixed full-screen quad that drives the collision-aggregation draw
    /// pass: unit-square texture coordinates and all-zero attribute words.
    pub fn create_collisions_agg_mesh(&self) -> (m: Mesh)
        ensures
            m.wf(),
            m.positions@ =~= agg_quad_positions(),
            m.uvs@ =~= quad_uvs(),
            m.custom@ =~= agg_quad_custom(),
            m.indices@ =~= quad_indices(0),
            m.quad_count() == 1,
    {
        let mut m = Mesh::new();
        m.positions.push(Vertex3 { x: 0, y: 0, z: 0 });
        m.positions.push(Vertex3 { x: 0, y: AGG_MESH_HEIGHT, z: 0 });
        m.positions.push(Vertex3 { x: AGG_MESH_WIDTH, y: AGG_MESH_HEIGHT, z: 0 });
        m.positions.push(Vertex3 { x: AGG_MESH_WIDTH, y: 0, z: 0 });
        m.uvs.push(Uv { u: 0, v: 1 });
        m.uvs.push(Uv { u: 0, v: 0 });
        m.uvs.push(Uv { u: 1, v: 0 });
        m.uvs.push(Uv { u: 1, v: 1 });
        let zero = CustomAttr { w0: 0, w1: 0, w2: 0, w3: 0 };
        m.custom.push(zero);
        m.custom.push(zero);
        m.custom.push(zero);
        m.custom.push(zero);
        m.indices.push(0);
        m.indices.push(2);
        m.indices.push(1);
        m.indices.push(0);
        m.indices.push(3);
        m.indices.push(2);
        assert(m.positions@ =~= agg_quad_positions());
        assert(m.uvs@ =~= quad_uvs());
        assert(m.custom@ =~= agg_quad_custom());
        assert(m.indices@ =~= quad_indices(0));
        m
    }
}

/// The corners of the collision-aggregation quad, in the fixed winding order
/// south-west, north-west, north-east, south-east.
pub open spec fn agg_quad_positions() -> Seq<Vertex3> {
    seq![
        (Vertex3 { x: 0, y: 0, z: 0 }),
        (Vertex3 { x: 0, y: AGG_MESH_HEIGHT, z: 0 }),
        (Vertex3 { x: AGG_MESH_WIDTH, y: AGG_MESH_HEIGHT, z: 0 }),
        (Vertex3 { x: AGG_MESH_WIDTH, y: 0, z: 0 }),
    ]
}

/// The all-zero attribute words of the collision-aggregation quad.
pub open spec fn agg_quad_custom() -> Seq<CustomAttr> {
    seq![
        (CustomAttr { w0: 0, w1: 0, w2: 0, w3: 0 }),
        (CustomAttr { w0: 0, w1: 0, w2: 0, w3: 0 }),
        (CustomAttr { w0: 0, w1: 0, w2: 0, w3: 0 }),
        (CustomAttr { w0: 0, w1: 0, w2: 0, w3: 0 }),
    ]
}

/// Arena monotonicity: two reservations without an intervening reset — the
/// second starting from the cursor the first left behind — return offsets
/// that rise strictly whenever the first reservation is nonempty, and leave
/// no gap: the second offset is exactly the first plus the first's length.
pub proof fn lemma_reserve_offsets_contiguous(
    a0: AnticData,
    a1: AnticData,
    a2: AnticData,
    len1: nat,
    len2: nat,
    off1: nat,
    off2: nat,
)
    requires
        off1 == a0.memory_used,
        a1.memory_used == a0.memory_used + len1,
        off2 == a1.memory_used,
        a2.memory_used == a1.memory_used + len2,
    ensures
        off2 == off1 + len1,
        len1 > 0 ==> off1 < off2,
{
}

impl Default for AnticData {
    /// A fresh arena without a collision ring.
    fn default() -> (r: Self)
        ensures
            r.wf(),
            r.memory_used == 0,
            r.scanlines == 0,
            r.collisions_data is None,
    {
        AnticData::new(false)
    }
}

} // verus!
