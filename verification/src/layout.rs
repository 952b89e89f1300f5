//! Sizes, counts and index data handed to the GPU: how many star slots a
//! buffer holds, its size in bytes, how many vertices a draw emits and the
//! triangle list of the navigation cube.
use vstd::prelude::*;

verus! {

/// Slots kept in the star buffer beyond the stars in range.
pub const SPARE_STAR_SLOTS: usize = 32;

/// `n` reduced to 32 bits, as `n as u32` keeps its low 32 bits.
pub open spec fn low_32_bits(n: int) -> int {
    n % 0x1_0000_0000
}

/// `n as u32`.
fn to_u32_truncating(n: usize) -> (r: u32)
    ensures
        r as int == low_32_bits(n as int),
{
    let wide: u64 = n as u64;
    let r: u32 = wide as u32;
    assert(r == wide % 0x1_0000_0000) by (bit_vector)
        requires
            r == wide as u32,
    ;
    r
}

/// The number of star slots in a buffer for `in_range` stars: the stars plus
/// the spare slots.
pub fn star_slot_count(in_range: usize) -> (n: usize)
    requires
        in_range + SPARE_STAR_SLOTS <= usize::MAX,
    ensures
        n == in_range + SPARE_STAR_SLOTS,
{
    in_range + SPARE_STAR_SLOTS
}

/// The size, as the GPU takes it (`u32`), of `count` elements of `stride`
/// bytes each: the low 32 bits of the product.
pub fn buffer_byte_size(count: usize, stride: usize) -> (size: u32)
    requires
        count * stride <= usize::MAX,
    ensures
        size as int == low_32_bits(count * stride),
{
    let bytes: usize = count * stride;
    to_u32_truncating(bytes)
}

/// The size of a GPU buffer created for `len_bytes` bytes of data: four bytes
/// more than the data, so that it never falls below the smallest buffer size.
pub fn padded_buffer_size(len_bytes: usize) -> (size: u32)
    requires
        low_32_bits(len_bytes as int) + 4 <= u32::MAX,
    ensures
        size as int == low_32_bits(len_bytes as int) + 4,
        size >= 4,
{
    to_u32_truncating(len_bytes) + 4
}

/// The vertex count and instance count of the star draw call for `slots`
/// star slots: six vertices (two triangles) per slot, two instances per slot.
pub fn star_draw_counts(slots: usize) -> (counts: (usize, usize))
    requires
        slots * 6 <= usize::MAX,
    ensures
        counts.0 == slots * 6,
        counts.1 == slots * 2,
{
    (slots * 6, slots * 2)
}

/// The byte size of an image of `width` by `height` pixels with
/// `bytes_per_pixel` bytes each, computed in `u32` as the texture upload does.
pub fn image_byte_size(bytes_per_pixel: usize, width: u32, height: u32) -> (size: u32)
    requires
        low_32_bits(bytes_per_pixel as int) * width <= u32::MAX,
        low_32_bits(bytes_per_pixel as int) * width * height <= u32::MAX,
    ensures
        size as int == low_32_bits(bytes_per_pixel as int) * width * height,
{
    let bpp: u32 = to_u32_truncating(bytes_per_pixel);
    let row: u32 = bpp * width;
    row * height
}

/// The size of a transfer buffer large enough for either of two uploads:
/// the larger of the two sizes, in 32 bits.
pub fn shared_transfer_size(first_bytes: usize, second_bytes: usize) -> (size: u32)
    ensures
        size as int == low_32_bits(
            if first_bytes >= second_bytes {
                first_bytes as int
            } else {
                second_bytes as int
            },
        ),
        first_bytes <= u32::MAX && second_bytes <= u32::MAX ==> size >= first_bytes && size
            >= second_bytes,
{
    let larger: usize = if first_bytes >= second_bytes {
        first_bytes
    } else {
        second_bytes
    };
    to_u32_truncating(larger)
}

/// Vertices of the navigation cube mesh.
pub const CUBE_VERTEX_COUNT: usize = 20;

/// The triangle list of the navigation cube: front, back, left, right and top
/// faces, two triangles each (the bottom is never visible).
pub open spec fn cube_triangle_list() -> Seq<u16> {
    seq![
        0u16, 1, 2, 0, 2, 3,
        4, 5, 6, 4, 6, 7,
        8, 9, 10, 10, 11, 8,
        12, 13, 14, 14, 15, 12,
        16, 17, 18, 18, 19, 17,
    ]
}

/// The index data of the navigation cube.
pub fn cube_indices() -> (indices: Vec<u16>)
    ensures
        indices@ == cube_triangle_list(),
        indices@ == seq![0u16, 1, 2, 0, 2, 3, 4, 5, 6, 4, 6, 7, 8, 9, 10, 10, 11, 8, 12, 13, 14, 14, 15, 12, 16, 17, 18, 18, 19, 17],
        forall|f: int| 0 <= f < 5 ==> #[trigger] face_split_into_two_triangles(indices@, f),
{
    let indices: Vec<u16> = vec![
        0, 1, 2, 0, 2, 3,
        4, 5, 6, 4, 6, 7,
        8, 9, 10, 10, 11, 8,
        12, 13, 14, 14, 15, 12,
        16, 17, 18, 18, 19, 17,
    ];
    assert(indices@ =~= cube_triangle_list());
    assert forall|f: int| 0 <= f < 5 implies #[trigger] face_split_into_two_triangles(
        indices@,
        f,
    ) by {
        assert(f == 0 || f == 1 || f == 2 || f == 3 || f == 4);
    }
    indices
}

/// The corners of face `f` of the cube mesh in order around its edge (the
/// top face's vertices are not stored in that order).
pub open spec fn face_perimeter(f: int) -> Seq<u16> {
    if f == 0 {
        seq![0u16, 1u16, 2u16, 3u16]
    } else if f == 1 {
        seq![4u16, 5u16, 6u16, 7u16]
    } else if f == 2 {
        seq![8u16, 9u16, 10u16, 11u16]
    } else if f == 3 {
        seq![12u16, 13u16, 14u16, 15u16]
    } else {
        seq![16u16, 17u16, 19u16, 18u16]
    }
}

/// Whether `x` is one of the corners `a`, `b`, `c` of a triangle.
pub open spec fn in_triangle(x: u16, a: u16, b: u16, c: u16) -> bool {
    x == a || x == b || x == c
}

/// Face `f` of an index list (indices `6f` to `6f + 5`) is its quad split
/// into two triangles along a diagonal: each triangle has three distinct
/// corners of the face, every corner of the face is used, and both ends of
/// one diagonal (opposite corners around the edge) lie in both triangles.
pub open spec fn face_split_into_two_triangles(s: Seq<u16>, f: int) -> bool {
    6 * f + 6 <= s.len() && {
        let (a, b, c) = (s[6 * f], s[6 * f + 1], s[6 * f + 2]);
        let (d, e, g) = (s[6 * f + 3], s[6 * f + 4], s[6 * f + 5]);
        let p = face_perimeter(f);
        &&& in_triangle(a, p[0], p[1], p[2]) || a == p[3]
        &&& in_triangle(b, p[0], p[1], p[2]) || b == p[3]
        &&& in_triangle(c, p[0], p[1], p[2]) || c == p[3]
        &&& in_triangle(d, p[0], p[1], p[2]) || d == p[3]
        &&& in_triangle(e, p[0], p[1], p[2]) || e == p[3]
        &&& in_triangle(g, p[0], p[1], p[2]) || g == p[3]
        &&& a != b && b != c && a != c
        &&& d != e && e != g && d != g
        &&& in_triangle(p[0], a, b, c) || in_triangle(p[0], d, e, g)
        &&& in_triangle(p[1], a, b, c) || in_triangle(p[1], d, e, g)
        &&& in_triangle(p[2], a, b, c) || in_triangle(p[2], d, e, g)
        &&& in_triangle(p[3], a, b, c) || in_triangle(p[3], d, e, g)
        &&& (in_triangle(p[0], a, b, c) && in_triangle(p[0], d, e, g) && in_triangle(
            p[2],
            a,
            b,
            c,
        ) && in_triangle(p[2], d, e, g)) || (in_triangle(p[1], a, b, c) && in_triangle(
            p[1],
            d,
            e,
            g,
        ) && in_triangle(p[3], a, b, c) && in_triangle(p[3], d, e, g))
    }
}

/// The cube's index data is a well formed triangle list over its vertices:
/// whole triangles, each index naming a vertex of the mesh, and each of the
/// five faces split into two triangles along a diagonal.
pub proof fn lemma_cube_indices_in_range()
    ensures
        cube_triangle_list().len() % 3 == 0,
        forall|i: int|
            0 <= i < cube_triangle_list().len() ==> (#[trigger] cube_triangle_list()[i] as int)
                < CUBE_VERTEX_COUNT,
        forall|f: int|
            0 <= f < 5 ==> #[trigger] face_split_into_two_triangles(cube_triangle_list(), f),
{
    let s = cube_triangle_list();
    assert forall|f: int| 0 <= f < 5 implies #[trigger] face_split_into_two_triangles(s, f) by {
        assert(f == 0 || f == 1 || f == 2 || f == 3 || f == 4);
    }
    assert(s.len() == 30);
    assert forall|i: int| 0 <= i < s.len() implies (#[trigger] s[i] as int) < CUBE_VERTEX_COUNT by {
        assert(s[i] < 20);
    }
}

/// A star buffer sized for `in_range` stars has room for them: its slot
/// count exceeds the stars in range by the spare slots, and when the byte
/// size does not wrap it covers every star's bytes.
pub proof fn lemma_star_buffer_holds_stars(in_range: usize, stride: usize)
    requires
        (in_range + SPARE_STAR_SLOTS) * stride < 0x1_0000_0000,
    ensures
        low_32_bits((in_range + SPARE_STAR_SLOTS) * stride) >= in_range * stride,
{
    assert((in_range + SPARE_STAR_SLOTS) * stride >= in_range * stride) by (nonlinear_arith);
    assert(in_range * stride >= 0) by (nonlinear_arith);
}

} // verus!
