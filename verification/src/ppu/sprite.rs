//! A sprite, built from one record of object attribute memory.
use vstd::prelude::*;
use crate::ppu::tile::{tile_wf, Tile};
use crate::ppu::PPU;

verus! {

#[derive(Debug, Clone, Copy)]
pub struct SpriteAttribute {
    pub palette_value: [u8; 4],
    pub is_low_priority: bool,
    pub is_flip_horizontal: bool,
    pub is_flip_vertical: bool,
}

#[derive(Debug, Clone, Copy)]
pub struct Sprite {
    pub x: u8,
    pub y: u8,
    pub tile: Tile,
    pub attribute: SpriteAttribute,
}

/// A sprite's attributes as a mathematical value.
pub struct SpriteAttributeView {
    /// The four colour ids of the sprite's palette.
    pub palette_value: Seq<u8>,
    /// Attribute bit 5: the sprite lies behind the background.
    pub is_low_priority: bool,
    /// Attribute bit 6.
    pub is_flip_horizontal: bool,
    /// Attribute bit 7.
    pub is_flip_vertical: bool,
}

/// A sprite as a mathematical value.
pub struct SpriteView {
    pub x: u8,
    pub y: u8,
    /// The tile's 8 rows of 8 colour indices.
    pub tile: Seq<Seq<u8>>,
    pub attribute: SpriteAttributeView,
}

pub open spec fn sprite_wf(sprite: SpriteView) -> bool {
    &&& tile_wf(sprite.tile)
    &&& sprite.attribute.palette_value.len() == 4
}

/// A complete sprite list: 64 well-formed sprites.
pub open spec fn sprites_wf(sprites: Seq<SpriteView>) -> bool {
    &&& sprites.len() == 64
    &&& forall|index: int| 0 <= index < 64 ==> sprite_wf(#[trigger] sprites[index])
}

impl View for SpriteAttribute {
    type V = SpriteAttributeView;

    open spec fn view(&self) -> SpriteAttributeView {
        SpriteAttributeView {
            palette_value: self.palette_value@,
            is_low_priority: self.is_low_priority,
            is_flip_horizontal: self.is_flip_horizontal,
            is_flip_vertical: self.is_flip_vertical,
        }
    }
}

impl View for Sprite {
    type V = SpriteView;

    open spec fn view(&self) -> SpriteView {
        SpriteView { x: self.x, y: self.y, tile: self.tile@, attribute: self.attribute@ }
    }
}

/// The sprites of a list as mathematical values.
pub open spec fn sprites_view(sprites: Seq<Sprite>) -> Seq<SpriteView> {
    Seq::new(sprites.len(), |index: int| sprites[index]@)
}

impl Sprite {
    /// The sprite that an OAM record (y, tile id, attribute, x) describes,
    /// with its tile and palette fetched from the PPU's memory.
    pub fn new(ppu: &PPU, oam_entry: [u8; 4]) -> (sprite: Self)
        ensures
            sprite@ == ppu@.sprite_from(oam_entry@),
    {
        let tile_id = oam_entry[1];
        let tile = ppu.fetch_tile(tile_id, true);
        Sprite {
            x: oam_entry[3],
            y: oam_entry[0],
            tile,
            attribute: SpriteAttribute::new(ppu, oam_entry[2]),
        }
    }
}

impl SpriteAttribute {
    /// The attributes that an OAM attribute byte stands for: the palette in
    /// bits 0-1, priority in bit 5, the flips in bits 6 and 7.
    pub fn new(ppu: &PPU, data: u8) -> (attribute: Self)
        ensures
            attribute@ == ppu@.sprite_attribute(data),
    {
        let palette_id = data & 0b11;
        assert(data & 0b11 < 4) by (bit_vector);
        SpriteAttribute {
            palette_value: ppu.fetch_palette_value(palette_id, true),
            is_low_priority: data & 0b10_0000 != 0,
            is_flip_horizontal: data & 0b100_0000 != 0,
            is_flip_vertical: data & 0b1000_0000 != 0,
        }
    }
}

/// A copy of a sprite list.
pub fn duplicate_sprites(sprites: &Vec<Sprite>) -> (copy: Vec<Sprite>)
    ensures
        copy@ == sprites@,
{
    let mut copy: Vec<Sprite> = Vec::new();
    for index in 0..sprites.len()
        invariant
            copy@.len() == index,
            forall|i: int| 0 <= i < index ==> #[trigger] copy@[i] == sprites@[i],
    {
        copy.push(sprites[index]);
    }
    assert(copy@ =~= sprites@);
    copy
}

} // verus!
