//! A tile: an 8x8 block of 2-bit colour indices, decoded from the two bit
//! planes of a 16-byte pattern.
use vstd::prelude::*;

verus! {

#[derive(Debug, Clone, Copy)]
pub struct Tile {
    data: [[u8; 8]; 8],
}

/// The colour index of pixel (`x`, `y`) of a 16-byte pattern: bit `7 - x` of
/// byte `y` is its low bit, the same bit of byte `y + 8` its high bit.
pub open spec fn pattern_pixel(pattern: Seq<u8>, x: int, y: int) -> u8 {
    let low = (pattern[y] >> ((7 - x) as u8)) & 1;
    let high = (pattern[y + 8] >> ((7 - x) as u8)) & 1;
    (high << 1) | low
}

/// The 8 rows of 8 colour indices that a 16-byte pattern stands for.
pub open spec fn pattern_pixels(pattern: Seq<u8>) -> Seq<Seq<u8>> {
    Seq::new(8, |y: int| Seq::new(8, |x: int| pattern_pixel(pattern, x, y)))
}

/// A tile as rows of colour indices: 8 rows of 8 values below 4.
pub open spec fn tile_wf(tile: Seq<Seq<u8>>) -> bool {
    &&& tile.len() == 8
    &&& forall|y: int| 0 <= y < 8 ==> (#[trigger] tile[y]).len() == 8
    &&& forall|x: int, y: int| 0 <= x < 8 && 0 <= y < 8 ==> #[trigger] tile[y][x] < 4
}

impl View for Tile {
    type V = Seq<Seq<u8>>;

    closed spec fn view(&self) -> Seq<Seq<u8>> {
        Seq::new(8, |y: int| self.data[y]@)
    }
}

impl Tile {
    pub fn new(raw_data: [u8; 16]) -> (tile: Self)
        ensures
            tile@ == pattern_pixels(raw_data@),
            tile_wf(tile@),
    {
        let mut data = [[0u8; 8]; 8];
        for offset_y in 0..8usize
            invariant
                forall|y: int, x: int|
                    0 <= y < offset_y && 0 <= x < 8 ==> #[trigger] data[y][x] == pattern_pixel(
                        raw_data@,
                        x,
                        y,
                    ),
        {
            let right = raw_data[offset_y];
            let left = raw_data[offset_y + 8];
            let mut row = [0u8; 8];
            for offset_x in 0..8usize
                invariant
                    offset_y < 8,
                    right == raw_data@[offset_y as int],
                    left == raw_data@[offset_y + 8],
                    forall|x: int|
                        0 <= x < offset_x ==> #[trigger] row[x] == pattern_pixel(
                            raw_data@,
                            x,
                            offset_y as int,
                        ),
            {
                let shift: u8 = (7 - offset_x) as u8;
                let right_bit = (right >> shift) & 0b1;
                let left_bit = (left >> shift) & 0b1;
                let palette_offset = (left_bit << 1) | right_bit;
                row[offset_x] = palette_offset;
            }
            data[offset_y] = row;
        }
        let tile = Tile { data };
        proof {
            assert forall|y: int| 0 <= y < 8 implies #[trigger] tile@[y] =~= pattern_pixels(
                raw_data@,
            )[y] by {
                assert forall|x: int| 0 <= x < 8 implies tile@[y][x] == pattern_pixels(
                    raw_data@,
                )[y][x] by {
                    assert(data[y][x] == pattern_pixel(raw_data@, x, y));
                }
            }
            assert(tile@ =~= pattern_pixels(raw_data@));
            lemma_pattern_pixels_wf(raw_data@);
        }
        tile
    }

    pub fn palette_offset(&self, offset_x: u8, offset_y: u8) -> (offset: u8)
        requires
            offset_x < 8,
            offset_y < 8,
        ensures
            offset == self@[offset_y as int][offset_x as int],
    {
        self.data[offset_y as usize][offset_x as usize]
    }
}

/// Every colour index of a decoded pattern is one of 0, 1, 2, 3.
pub proof fn lemma_pattern_pixels_wf(pattern: Seq<u8>)
    ensures
        tile_wf(pattern_pixels(pattern)),
{
    assert forall|x: int, y: int| 0 <= x < 8 && 0 <= y < 8 implies #[trigger] pattern_pixels(
        pattern,
    )[y][x] < 4 by {
        let low = pattern[y];
        let high = pattern[y + 8];
        let shift = (7 - x) as u8;
        assert((((high >> shift) & 1) << 1) | ((low >> shift) & 1) < 4) by (bit_vector);
    }
}

} // verus!
