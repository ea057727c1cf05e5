use atari_antic::antic_data::AGG_MESH_HEIGHT;
use atari_antic::antic_data::AGG_MESH_WIDTH;
use atari_antic::mesh::decode_word;
use atari_antic::mesh::push_indices;
use atari_antic::mesh::DISPLAY_WIDTH;
use atari_antic::AnticData;
use atari_antic::ModeLineDescr;

fn descr(mode: u8, scan_line: usize, height: usize) -> ModeLineDescr {
    ModeLineDescr {
        mode,
        scan_line,
        width: 384,
        height,
        n_bytes: 0,
        line_voffset: 0,
        data_offset: 0,
        chbase: 0,
        pmbase: 0,
        hscrol: 0,
        video_memory_offset: 0,
        charset_memory_offset: 0,
    }
}

#[test]
fn mesh_cardinality_after_three_inserts() {
    // N mode lines yield 4N vertices per attribute buffer and 6N indices,
    // every index value below 4N.
    let mut a = AnticData::new(false);
    a.insert_mode_line(&descr(2, 8, 8));
    a.insert_mode_line(&descr(4, 16, 8));
    a.insert_mode_line(&descr(0x0A, 24, 4));
    assert_eq!(a.mesh.positions.len(), 12);
    assert_eq!(a.mesh.uvs.len(), 12);
    assert_eq!(a.mesh.custom.len(), 12);
    assert_eq!(a.mesh.indices.len(), 18);
    assert!(a.mesh.indices.iter().all(|&i| (i as usize) < 12));
}

#[test]
fn quad_geometry_spans_the_display() {
    let mut a = AnticData::new(false);
    a.insert_mode_line(&descr(2, 8, 8));
    let p = &a.mesh.positions;
    // south-west, north-west, north-east, south-east; y inverted, margin 8
    assert_eq!((p[0].x, p[0].y, p[0].z), (0, 232, 0));
    assert_eq!((p[1].x, p[1].y, p[1].z), (0, 240, 0));
    assert_eq!((p[2].x, p[2].y, p[2].z), (DISPLAY_WIDTH, 240, 0));
    assert_eq!((p[3].x, p[3].y, p[3].z), (DISPLAY_WIDTH, 232, 0));
    let uv = &a.mesh.uvs;
    assert_eq!((uv[0].u, uv[0].v), (0, 1));
    assert_eq!((uv[1].u, uv[1].v), (0, 0));
    assert_eq!((uv[2].u, uv[2].v), (1, 0));
    assert_eq!((uv[3].u, uv[3].v), (1, 1));
    assert_eq!(a.mesh.indices, vec![0, 2, 1, 0, 3, 2]);
    assert_eq!(a.scanlines, 16);
}

#[test]
fn indices_are_based_at_the_quad_start() {
    let mut indices: Vec<u16> = Vec::new();
    push_indices(&mut indices, 8);
    assert_eq!(indices, vec![8, 10, 9, 8, 11, 10]);
}

#[test]
fn packing_round_trip_recovers_all_fields() {
    // The four packed words, carried as floats holding the exact bit
    // patterns, decode back to the original descriptor fields.
    let ml = ModeLineDescr {
        mode: 7,
        scan_line: 100,
        width: 256,
        height: 16,
        n_bytes: 0,
        line_voffset: 5,
        data_offset: 0,
        chbase: 0,
        pmbase: 0,
        hscrol: 12,
        video_memory_offset: 4321,
        charset_memory_offset: 1024,
    };
    let mut a = AnticData::new(false);
    a.insert_mode_line(&ml);
    let attr = a.mesh.custom[0];
    // all four vertices of the quad carry identical words
    for v in 1..4 {
        assert_eq!(a.mesh.custom[v], attr);
    }
    // a float built from the bit pattern hands the same pattern back
    let through_float = [
        f32::from_bits(attr.w0).to_bits(),
        f32::from_bits(attr.w1).to_bits(),
        f32::from_bits(attr.w2).to_bits(),
        f32::from_bits(attr.w3).to_bits(),
    ];
    assert_eq!(through_float, [attr.w0, attr.w1, attr.w2, attr.w3]);
    let (mode, scan_line, height) = decode_word(through_float[0]);
    assert_eq!(mode, 7);
    assert_eq!(scan_line, 100);
    assert_eq!(height, 16);
    let (hscrol, line_voffset, half_width) = decode_word(through_float[1]);
    assert_eq!(hscrol, 12);
    assert_eq!(line_voffset, 5);
    assert_eq!(half_width, 128);
    assert_eq!(through_float[2], 4321);
    assert_eq!(through_float[3], 1024);
}

#[test]
fn packed_word_has_documented_bit_layout() {
    let mut a = AnticData::new(false);
    a.insert_mode_line(&descr(2, 8, 8));
    // word0 = mode | scan_line << 8 | height << 16
    assert_eq!(a.mesh.custom[0].w0, 0x0008_0802);
}

#[test]
fn create_mesh_appends_beam_marker_while_paused() {
    let mut a = AnticData::new(false);
    a.insert_mode_line(&descr(2, 8, 8));
    let m = a.create_mesh();
    // scan-line cursor 16 < 248: one extra one-line marker quad at the cursor
    assert_eq!(m.positions.len(), 8);
    assert_eq!(m.indices.len(), 12);
    assert_eq!(m.positions[5].y, 248 - 16); // marker top edge
    assert_eq!(m.positions[4].y, 248 - 16 - 1); // marker bottom edge
    let marker_attr = m.custom[4];
    let (mode, scan_line, height) = decode_word(marker_attr.w0);
    assert_eq!((mode, scan_line, height), (0, 16, 1));
    // the snapshot left the arena's own mesh untouched
    assert_eq!(a.mesh.positions.len(), 4);
}

#[test]
fn create_mesh_without_marker_past_last_line() {
    let mut a = AnticData::new(false);
    a.insert_mode_line(&descr(2, 240, 8));
    assert_eq!(a.scanlines, 248);
    let m = a.create_mesh();
    assert_eq!(m.positions.len(), 4);
    assert_eq!(m.indices.len(), 6);
}

#[test]
fn clear_starts_a_fresh_mesh() {
    let mut a = AnticData::new(false);
    a.insert_mode_line(&descr(2, 8, 8));
    a.insert_mode_line(&descr(2, 16, 8));
    a.clear();
    assert_eq!(a.mesh.positions.len(), 0);
    assert_eq!(a.mesh.uvs.len(), 0);
    assert_eq!(a.mesh.custom.len(), 0);
    assert_eq!(a.mesh.indices.len(), 0);
    assert_eq!(a.scanlines, 0);
    a.insert_mode_line(&descr(2, 8, 8));
    assert_eq!(a.mesh.indices, vec![0, 2, 1, 0, 3, 2]);
}

#[test]
fn collisions_agg_mesh_is_one_fixed_quad() {
    let a = AnticData::new(true);
    let m = a.create_collisions_agg_mesh();
    assert_eq!(m.positions.len(), 4);
    assert_eq!((m.positions[0].x, m.positions[0].y), (0, 0));
    assert_eq!((m.positions[1].x, m.positions[1].y), (0, AGG_MESH_HEIGHT));
    assert_eq!((m.positions[2].x, m.positions[2].y), (AGG_MESH_WIDTH, AGG_MESH_HEIGHT));
    assert_eq!((m.positions[3].x, m.positions[3].y), (AGG_MESH_WIDTH, 0));
    assert!(m.custom.iter().all(|c| (c.w0, c.w1, c.w2, c.w3) == (0, 0, 0, 0)));
    assert_eq!(m.indices, vec![0, 2, 1, 0, 3, 2]);
}

#[test]
fn next_mode_line_and_charset_size() {
    let ml = descr(2, 8, 8);
    assert_eq!(ml.next_mode_line(), 16);
    assert_eq!(descr(2, 0, 1).charset_size(), 1024);
    assert_eq!(descr(5, 0, 1).charset_size(), 1024);
    assert_eq!(descr(6, 0, 1).charset_size(), 512);
    assert_eq!(descr(7, 0, 1).charset_size(), 512);
    assert_eq!(descr(0, 0, 1).charset_size(), 0);
    assert_eq!(descr(8, 0, 1).charset_size(), 0);
}
