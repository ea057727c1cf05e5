use atari_antic::collisions::COLLISIONS_RING_SIZE;
use atari_antic::collisions::COLLISIONS_ROW_STRIDE;
use atari_antic::collisions::COLLISIONS_SCAN_LINES;
use atari_antic::CollisionsData;

#[test]
fn fresh_ring_is_zeroed() {
    let c = CollisionsData::new(COLLISIONS_RING_SIZE);
    assert_eq!(c.aggregate.len(), COLLISIONS_SCAN_LINES);
    assert!(c.aggregate.iter().all(|&w| w == 0));
    assert_eq!(c.write_index, 0);
    assert_eq!(c.ring_size, COLLISIONS_RING_SIZE);
}

#[test]
fn reducing_zero_rows_yields_zero() {
    // A texture of all-zero samples aggregates to zero on every scan line.
    let mut c = CollisionsData::new(4);
    let words = vec![0u64; 8 * COLLISIONS_ROW_STRIDE];
    c.read_collisions(&words, 8);
    assert!(c.aggregate.iter().all(|&w| w == 0));
}

#[test]
fn single_bit_sets_exactly_that_bit() {
    // One nonzero sample in one column: exactly that bit on that scan line,
    // zero everywhere else.
    let mut c = CollisionsData::new(4);
    let mut words = vec![0u64; 8 * COLLISIONS_ROW_STRIDE];
    let scan_line = 57;
    let k = 13;
    words[5 * COLLISIONS_ROW_STRIDE + scan_line] = 1u64 << k;
    c.read_collisions(&words, 8);
    for x in 0..COLLISIONS_SCAN_LINES {
        if x == scan_line {
            assert_eq!(c.aggregate[x], 1u64 << k);
        } else {
            assert_eq!(c.aggregate[x], 0);
        }
    }
}

#[test]
fn rows_of_one_scan_line_are_or_combined() {
    let mut c = CollisionsData::new(4);
    let mut words = vec![0u64; 4 * COLLISIONS_ROW_STRIDE];
    words[10] = 0b0001;
    words[COLLISIONS_ROW_STRIDE + 10] = 0b0100;
    words[3 * COLLISIONS_ROW_STRIDE + 10] = 0b0001;
    c.read_collisions(&words, 4);
    assert_eq!(c.aggregate[10], 0b0101);
}

#[test]
fn reduction_overwrites_the_previous_frame() {
    // Row 0 initializes the accumulator: stale aggregate bits never leak
    // into the next frame's reduction.
    let mut c = CollisionsData::new(4);
    let mut words = vec![0u64; 2 * COLLISIONS_ROW_STRIDE];
    words[33] = 0xF0;
    c.read_collisions(&words, 2);
    assert_eq!(c.aggregate[33], 0xF0);
    let zeros = vec![0u64; 2 * COLLISIONS_ROW_STRIDE];
    c.read_collisions(&zeros, 2);
    assert_eq!(c.aggregate[33], 0);
}

#[test]
fn ring_read_and_write_slots_never_alias() {
    // Across 2 * ring_size consecutive frames the mapped slot is never the
    // slot the frame's copy targets, and the mapped slot is the one written
    // ring_size - 1 frames earlier.
    let ring = COLLISIONS_RING_SIZE;
    let mut c = CollisionsData::new(ring);
    let words = vec![0u64; COLLISIONS_ROW_STRIDE];
    let mut writes: Vec<usize> = Vec::new();
    let mut reads: Vec<usize> = Vec::new();
    for _frame in 0..(2 * ring) {
        let w = c.write_slot();
        let r = c.read_slot();
        assert_ne!(w, r);
        writes.push(w);
        reads.push(r);
        c.read_collisions(&words, 1);
    }
    // frame k maps the slot whose copy was issued at frame k - (ring - 1)
    for k in (ring - 1)..(2 * ring) {
        assert_eq!(reads[k], writes[k - (ring - 1)]);
    }
    // the write index advances one slot per frame, wrapping at the ring size
    for k in 0..(2 * ring) {
        assert_eq!(writes[k], k % ring);
    }
}

#[test]
fn advance_wraps_at_ring_size() {
    let mut c = CollisionsData::new(3);
    assert_eq!(c.write_index, 0);
    c.advance();
    assert_eq!(c.write_index, 1);
    c.advance();
    assert_eq!(c.write_index, 2);
    c.advance();
    assert_eq!(c.write_index, 0);
}
