//! An attribute byte: the palette ids of the four 2x2-tile blocks of a 4x4
//! tile area.
use vstd::prelude::*;

verus! {

pub struct Attribute {
    data: [u8; 4],
}

impl View for Attribute {
    type V = Seq<u8>;

    closed spec fn view(&self) -> Seq<u8> {
        self.data@
    }
}

/// The palette id of block `block` in an attribute byte: two bits, the
/// lowest pair for block 0.
pub open spec fn block_palette(raw_data: u8, block: int) -> u8 {
    (raw_data >> ((block * 2) as u8)) & 0b11
}

/// The four palette ids that an attribute byte holds.
pub open spec fn block_palettes(raw_data: u8) -> Seq<u8> {
    Seq::new(4, |block: int| block_palette(raw_data, block))
}

/// The block of a 4x4 tile area that tile (`tile_x`, `tile_y`) lies in:
/// 0 top left, 1 top right, 2 bottom left, 3 bottom right.
pub open spec fn block_of(tile_x: u16, tile_y: u16) -> int {
    (tile_x % 4) / 2 + (tile_y % 4) / 2 * 2
}

impl Attribute {
    pub fn new(raw_data: u8) -> (attribute: Self)
        ensures
            attribute@ == block_palettes(raw_data),
    {
        let mut data = [0u8; 4];
        for i in 0..4u8
            invariant
                forall|block: int| 0 <= block < i ==> #[trigger] data[block] == block_palette(
                    raw_data,
                    block,
                ),
        {
            data[i as usize] = (raw_data >> (i * 2)) & 0b11;
        }
        let attribute = Attribute { data };
        assert(attribute@ =~= block_palettes(raw_data));
        attribute
    }

    pub fn palette_id(&self, tile_x: u16, tile_y: u16) -> (id: u8)
        ensures
            id == self@[block_of(tile_x, tile_y)],
    {
        self.data[Self::block_number(tile_x, tile_y) as usize]
    }

    pub fn block_number(tile_x: u16, tile_y: u16) -> (block: u8)
        ensures
            block == block_of(tile_x, tile_y),
            block < 4,
    {
        (tile_x % 4 / 2 + tile_y % 4 / 2 * 2) as u8
    }
}

/// A palette id is one of 0, 1, 2, 3.
pub proof fn lemma_block_palette_range(raw_data: u8, block: int)
    requires
        0 <= block < 4,
    ensures
        block_palette(raw_data, block) < 4,
{
    let shift = (block * 2) as u8;
    assert((raw_data >> shift) & 0b11 < 4) by (bit_vector);
}

} // verus!
