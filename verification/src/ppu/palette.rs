//! Palette RAM: 32 colour ids, with the mirrors of colour zero.
use vstd::prelude::*;
use crate::ram::zeroed;

verus! {

pub struct Palette {
    data: [u8; 32],
}

impl View for Palette {
    type V = Seq<u8>;

    closed spec fn view(&self) -> Seq<u8> {
        self.data@
    }
}

/// Entry zero of background palettes 1 to 3: reads as the universal
/// background colour.
pub open spec fn background_mirror(addr: u8) -> bool {
    addr == 0x04 || addr == 0x08 || addr == 0x0c
}

/// Entry zero of a sprite palette: an alias of entry zero of the background
/// palette with the same number.
pub open spec fn sprite_mirror(addr: u8) -> bool {
    addr == 0x10 || addr == 0x14 || addr == 0x18 || addr == 0x1c
}

/// The cell that a read at `addr` is served from.
pub open spec fn read_slot(addr: u8) -> int {
    if background_mirror(addr) {
        0
    } else if sprite_mirror(addr) {
        addr - 0x10
    } else {
        addr as int
    }
}

/// The cell that a write at `addr` lands in.
pub open spec fn write_slot(addr: u8) -> int {
    if sprite_mirror(addr) {
        addr - 0x10
    } else {
        addr as int
    }
}

/// The byte that a read of palette memory `palette` at `addr` returns.
pub open spec fn palette_read(palette: Seq<u8>, addr: u8) -> u8 {
    palette[read_slot(addr)]
}

/// Palette memory `palette` after `data` is written at `addr`.
pub open spec fn palette_write(palette: Seq<u8>, addr: u8, data: u8) -> Seq<u8> {
    palette.update(write_slot(addr), data)
}

impl Default for Palette {
    fn default() -> (palette: Self)
        ensures
            palette@ == zeroed(32),
    {
        let palette = Palette { data: [0u8; 32] };
        assert(palette@ =~= zeroed(32));
        palette
    }
}

impl Palette {
    /// Palette memory always holds 32 bytes.
    pub proof fn lemma_len(&self)
        ensures
            self@.len() == 32,
    {
    }

    pub fn read(&self, addr: u8) -> (value: u8)
        requires
            addr < 0x20,
        ensures
            value == palette_read(self@, addr),
    {
        self.data[Self::real_read_addr(addr) as usize]
    }

    pub fn write(&mut self, addr: u8, data: u8)
        requires
            addr < 0x20,
        ensures
            final(self)@ == palette_write(old(self)@, addr, data),
    {
        self.data[Self::real_write_addr(addr) as usize] = data;
    }

    pub fn real_read_addr(addr: u8) -> (slot: u8)
        ensures
            slot == read_slot(addr),
            slot <= addr,
    {
        if Self::is_background_mirror(addr) {
            0x00
        } else if Self::is_sprite_mirror(addr) {
            addr - 0x10
        } else {
            addr
        }
    }

    pub fn real_write_addr(addr: u8) -> (slot: u8)
        ensures
            slot == write_slot(addr),
            slot <= addr,
    {
        if Self::is_sprite_mirror(addr) {
            addr - 0x10
        } else {
            addr
        }
    }

    pub fn is_background_mirror(addr: u8) -> (mirrored: bool)
        ensures
            mirrored == background_mirror(addr),
    {
        addr == 0x04 || addr == 0x08 || addr == 0x0c
    }

    pub fn is_sprite_mirror(addr: u8) -> (mirrored: bool)
        ensures
            mirrored == sprite_mirror(addr),
    {
        addr == 0x10 || addr == 0x14 || addr == 0x18 || addr == 0x1c
    }
}

/// Reads of entry zero of background palettes 1 to 3 return the universal
/// background colour, the byte at 0x00.
pub proof fn lemma_background_mirrors_read_zero(palette: Seq<u8>, addr: u8)
    requires
        palette.len() == 32,
        addr == 0x04 || addr == 0x08 || addr == 0x0c,
    ensures
        palette_read(palette, addr) == palette_read(palette, 0x00),
{
}

/// A write to entry zero of a sprite palette is a write to entry zero of the
/// background palette with the same number: 0x10, 0x14, 0x18 and 0x1c alias
/// 0x00, 0x04, 0x08 and 0x0c.
pub proof fn lemma_sprite_mirrors_alias(palette: Seq<u8>, addr: u8, data: u8)
    requires
        palette.len() == 32,
        addr == 0x10 || addr == 0x14 || addr == 0x18 || addr == 0x1c,
    ensures
        palette_write(palette, addr, data) == palette_write(palette, (addr - 0x10) as u8, data),
        palette_write(palette, addr, data)[addr - 0x10] == data,
        palette_read(palette_write(palette, addr, data), addr) == data,
{
}

/// A byte written at an address that is no mirror is the byte read back from
/// it.
pub proof fn lemma_write_then_read(palette: Seq<u8>, addr: u8, data: u8)
    requires
        palette.len() == 32,
        addr < 0x20,
        !background_mirror(addr),
    ensures
        palette_read(palette_write(palette, addr, data), addr) == data,
{
}

} // verus!
