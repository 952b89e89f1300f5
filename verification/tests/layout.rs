use starviewer::layout::{
    buffer_byte_size, cube_indices, image_byte_size, padded_buffer_size, shared_transfer_size,
    star_draw_counts, star_slot_count, CUBE_VERTEX_COUNT, SPARE_STAR_SLOTS,
};

#[test]
fn star_slots_add_the_spare_slots() {
    assert_eq!(SPARE_STAR_SLOTS, 32);
    assert_eq!(star_slot_count(0), 32);
    assert_eq!(star_slot_count(10), 42);
}

#[test]
fn buffer_byte_size_multiplies() {
    assert_eq!(buffer_byte_size(42, 32), 1344);
    assert_eq!(buffer_byte_size(0, 32), 0);
    assert_eq!(buffer_byte_size(7, 1), 7);
}

#[test]
fn buffer_byte_size_keeps_low_32_bits() {
    let count: usize = (1usize << 32) + 5;
    if usize::BITS == 64 {
        assert_eq!(buffer_byte_size(count, 1), 5);
        assert_eq!(buffer_byte_size(1usize << 31, 4), 0);
    }
}

#[test]
fn padded_buffer_adds_four_bytes() {
    assert_eq!(padded_buffer_size(0), 4);
    assert_eq!(padded_buffer_size(100), 104);
}

#[test]
fn draw_counts_per_slot() {
    assert_eq!(star_draw_counts(0), (0, 0));
    assert_eq!(star_draw_counts(3), (18, 6));
}

#[test]
fn image_size_in_bytes() {
    assert_eq!(image_byte_size(4, 16, 8), 512);
    assert_eq!(image_byte_size(3, 0, 8), 0);
}

#[test]
fn transfer_size_takes_the_larger() {
    assert_eq!(shared_transfer_size(100, 60), 100);
    assert_eq!(shared_transfer_size(60, 100), 100);
    assert_eq!(shared_transfer_size(0, 0), 0);
}

#[test]
fn cube_indices_form_triangles_over_the_mesh() {
    let indices = cube_indices();
    assert_eq!(indices.len(), 30);
    assert_eq!(indices.len() % 3, 0);
    assert!(indices.iter().all(|&i| (i as usize) < CUBE_VERTEX_COUNT));
    assert_eq!(&indices[24..30], &[16, 17, 18, 18, 19, 17]);
}

#[test]
fn star_buffer_covers_the_stars_in_range() {
    for in_range in [0usize, 1, 5, 1000] {
        let stride = 32usize;
        let size = buffer_byte_size(star_slot_count(in_range), stride) as usize;
        assert!(size >= in_range * stride);
        assert_eq!(size, (in_range + SPARE_STAR_SLOTS) * stride);
    }
}
