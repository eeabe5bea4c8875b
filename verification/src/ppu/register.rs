//! The PPU's register bank, as the CPU sees it through 0x2000-0x2007.
use vstd::prelude::*;
use crate::ppu::SCREEN_WIDTH;
use crate::{Byte, Word};

verus! {

/// Status bit 5: more than eight sprites on a scanline.
pub const STATUS_SPRITE_OVERFLOW: u8 = 0x20;

/// Status bit 6: sprite zero hit.
pub const STATUS_SPRITE_ZERO_HIT: u8 = 0x40;

/// Status bit 7: vertical blank.
pub const STATUS_VBLANK: u8 = 0x80;

#[derive(Debug, Clone, Copy, PartialEq, Eq, Structural)]
pub struct PPURegisters {
    pub ctrl: Byte,
    pub mask: Byte,
    pub status: Byte,
    pub oam_address: Byte,
    pub scroll_x: Byte,
    pub scroll_y: Byte,
    pub address: Word,
    pub is_first_scroll_write: bool,
    pub is_first_address_write: bool,
}

impl PPURegisters {
    /// The register bank at power-up: all zero, both write latches open.
    pub open spec fn initial() -> PPURegisters {
        PPURegisters {
            ctrl: 0,
            mask: 0,
            status: 0,
            oam_address: 0,
            scroll_x: 0,
            scroll_y: 0,
            address: 0,
            is_first_scroll_write: true,
            is_first_address_write: true,
        }
    }

    pub open spec fn spec_write_ctrl(self, data: Byte) -> PPURegisters {
        PPURegisters { ctrl: data, ..self }
    }

    pub open spec fn spec_write_mask(self, data: Byte) -> PPURegisters {
        PPURegisters { mask: data, ..self }
    }

    pub open spec fn spec_write_oam_address(self, data: Byte) -> PPURegisters {
        PPURegisters { oam_address: data, ..self }
    }

    /// A scroll write: the first sets x, the second sets y, and the latch
    /// toggles.
    pub open spec fn spec_write_scroll(self, data: Byte) -> PPURegisters {
        if self.is_first_scroll_write {
            PPURegisters { scroll_x: data, is_first_scroll_write: false, ..self }
        } else {
            PPURegisters { scroll_y: data, is_first_scroll_write: true, ..self }
        }
    }

    pub open spec fn spec_clear_scroll_latch(self) -> PPURegisters {
        PPURegisters { is_first_scroll_write: true, ..self }
    }

    /// An address write: the first sets the high byte of the address and
    /// clears the low byte, the second sets the low byte and keeps the high
    /// byte, and the latch toggles.
    pub open spec fn spec_write_address(self, data: Byte) -> PPURegisters {
        if self.is_first_address_write {
            PPURegisters { address: (data * 0x100) as u16, is_first_address_write: false, ..self }
        } else {
            PPURegisters {
                address: (self.address / 0x100 * 0x100 + data) as u16,
                is_first_address_write: true,
                ..self
            }
        }
    }

    pub open spec fn spec_clear_address_latch(self) -> PPURegisters {
        PPURegisters { is_first_address_write: true, ..self }
    }

    /// The OAM address moves on by one, modulo 256.
    pub open spec fn spec_increment_oam_address(self) -> PPURegisters {
        PPURegisters { oam_address: ((self.oam_address + 1) % 0x100) as u8, ..self }
    }

    /// The VRAM address moves on by 1 or 32, modulo 2^16.
    pub open spec fn spec_increment_address(self) -> PPURegisters {
        PPURegisters {
            address: ((self.address + self.spec_vram_address_increment()) % 0x1_0000) as u16,
            ..self
        }
    }

    /// Control bits 0-1: the base name table.
    pub open spec fn spec_name_table_id(self) -> u8 {
        self.ctrl & 0b11
    }

    /// Control bit 2: the step of the VRAM address, 1 or 32.
    pub open spec fn spec_vram_address_increment(self) -> u8 {
        if self.ctrl & 0b100 == 0 {
            1
        } else {
            32
        }
    }

    /// Control bit 3: the pattern table of the sprites.
    pub open spec fn spec_sprite_table_offset(self) -> Word {
        if self.ctrl & 0b1000 == 0 {
            0x0000
        } else {
            0x1000
        }
    }

    /// Control bit 4: the pattern table of the background.
    pub open spec fn spec_background_table_offset(self) -> Word {
        if self.ctrl & 0b10000 == 0 {
            0x0000
        } else {
            0x1000
        }
    }

    /// Control bit 7: raise NMI when vblank starts.
    pub open spec fn spec_has_vblank_nmi(self) -> bool {
        self.ctrl & 0b10000000 != 0
    }

    /// Mask bit 3.
    pub open spec fn spec_is_background_visible(self) -> bool {
        self.mask & 0b1000 != 0
    }

    /// Mask bit 4.
    pub open spec fn spec_is_sprite_visible(self) -> bool {
        self.mask & 0b10000 != 0
    }

    pub open spec fn spec_is_sprite_overflow(self) -> bool {
        self.status & STATUS_SPRITE_OVERFLOW != 0
    }

    pub open spec fn spec_is_sprite_zero_hit(self) -> bool {
        self.status & STATUS_SPRITE_ZERO_HIT != 0
    }

    pub open spec fn spec_is_vblank(self) -> bool {
        self.status & STATUS_VBLANK != 0
    }

    /// The status register with the bits of `flag` set.
    pub open spec fn with_status_set(self, flag: u8) -> PPURegisters {
        PPURegisters { status: self.status | flag, ..self }
    }

    /// The status register with the bits of `flag` cleared.
    pub open spec fn with_status_cleared(self, flag: u8) -> PPURegisters {
        PPURegisters { status: self.status & !flag, ..self }
    }

    /// The horizontal scroll with the name table's 256 pixels added.
    pub open spec fn spec_real_scroll_x(self) -> u16 {
        (self.scroll_x + (self.spec_name_table_id() % 2) * 256) as u16
    }

    /// The vertical scroll with the name table's 256 pixels added.
    pub open spec fn spec_real_scroll_y(self) -> u16 {
        (self.scroll_y + (self.spec_name_table_id() / 2) * 256) as u16
    }
}

impl Default for PPURegisters {
    fn default() -> (registers: Self)
        ensures
            registers == PPURegisters::initial(),
    {
        PPURegisters {
            ctrl: 0,
            mask: 0,
            status: 0,
            oam_address: 0,
            scroll_x: 0,
            scroll_y: 0,
            address: 0,
            is_first_scroll_write: true,
            is_first_address_write: true,
        }
    }
}

impl PPURegisters {
    pub fn write_ctrl(&mut self, data: Byte)
        ensures
            *final(self) == old(self).spec_write_ctrl(data),
    {
        self.ctrl = data;
    }

    pub fn write_mask(&mut self, data: Byte)
        ensures
            *final(self) == old(self).spec_write_mask(data),
    {
        self.mask = data;
    }

    pub fn read_status(&self) -> (status: Byte)
        ensures
            status == self.status,
    {
        self.status
    }

    pub fn write_oam_address(&mut self, data: Byte)
        ensures
            *final(self) == old(self).spec_write_oam_address(data),
    {
        self.oam_address = data;
    }

    pub fn write_scroll(&mut self, data: Byte)
        ensures
            *final(self) == old(self).spec_write_scroll(data),
    {
        if self.is_first_scroll_write {
            self.scroll_x = data;
        } else {
            self.scroll_y = data;
        }
        self.is_first_scroll_write = !self.is_first_scroll_write;
    }

    pub fn clear_scroll_latch(&mut self)
        ensures
            *final(self) == old(self).spec_clear_scroll_latch(),
    {
        self.is_first_scroll_write = true;
    }

    pub fn write_address(&mut self, data: Byte)
        ensures
            *final(self) == old(self).spec_write_address(data),
    {
        let address = self.address;
        assert(((data as u16) << 8) == data * 0x100 && (address & 0xFF00) | (data as u16)
            == address / 0x100 * 0x100 + data) by (bit_vector);
        if self.is_first_address_write {
            self.address = (data as Word) << 8;
        } else {
            self.address = (self.address & 0xFF00) | data as Word;
        }
        self.is_first_address_write = !self.is_first_address_write;
    }

    pub fn clear_address_latch(&mut self)
        ensures
            *final(self) == old(self).spec_clear_address_latch(),
    {
        self.is_first_address_write = true;
    }

    pub fn oam_address(&self) -> (address: Byte)
        ensures
            address == self.oam_address,
    {
        self.oam_address
    }

    pub fn increment_oam_address(&mut self)
        ensures
            *final(self) == old(self).spec_increment_oam_address(),
    {
        self.oam_address = self.oam_address.wrapping_add(1);
    }

    pub fn address(&self) -> (address: Word)
        ensures
            address == self.address,
    {
        self.address
    }

    pub fn increment_address(&mut self)
        ensures
            *final(self) == old(self).spec_increment_address(),
    {
        self.address = self.address.wrapping_add(self.vram_address_increment() as Word);
    }

    pub fn name_table_id(&self) -> (id: u8)
        ensures
            id == self.spec_name_table_id(),
            id < 4,
    {
        let ctrl = self.ctrl;
        assert(ctrl & 0b11 < 4) by (bit_vector);
        self.ctrl & 0b11
    }

    pub fn vram_address_increment(&self) -> (step: u8)
        ensures
            step == self.spec_vram_address_increment(),
    {
        if self.ctrl & 0b100 == 0 {
            1
        } else {
            32
        }
    }

    pub fn sprite_table_offset(&self) -> (offset: Word)
        ensures
            offset == self.spec_sprite_table_offset(),
    {
        if self.ctrl & 0b1000 == 0 {
            0x0000
        } else {
            0x1000
        }
    }

    pub fn background_table_offset(&self) -> (offset: Word)
        ensures
            offset == self.spec_background_table_offset(),
    {
        if self.ctrl & 0b10000 == 0 {
            0x0000
        } else {
            0x1000
        }
    }

    pub fn has_vblank_nmi(&self) -> (enabled: bool)
        ensures
            enabled == self.spec_has_vblank_nmi(),
    {
        self.ctrl & 0b10000000 != 0
    }

    pub fn is_background_visible(&self) -> (visible: bool)
        ensures
            visible == self.spec_is_background_visible(),
    {
        self.mask & 0b1000 != 0
    }

    pub fn is_sprite_visible(&self) -> (visible: bool)
        ensures
            visible == self.spec_is_sprite_visible(),
    {
        self.mask & 0b10000 != 0
    }

    pub fn is_sprite_overflow(&self) -> (flag: bool)
        ensures
            flag == self.spec_is_sprite_overflow(),
    {
        self.status & STATUS_SPRITE_OVERFLOW != 0
    }

    pub fn set_sprite_overflow(&mut self)
        ensures
            *final(self) == old(self).with_status_set(STATUS_SPRITE_OVERFLOW),
    {
        self.status |= STATUS_SPRITE_OVERFLOW;
    }

    pub fn clear_sprite_overflow(&mut self)
        ensures
            *final(self) == old(self).with_status_cleared(STATUS_SPRITE_OVERFLOW),
    {
        self.status &= !STATUS_SPRITE_OVERFLOW;
    }

    pub fn is_sprite_zero_hit(&self) -> (flag: bool)
        ensures
            flag == self.spec_is_sprite_zero_hit(),
    {
        self.status & STATUS_SPRITE_ZERO_HIT != 0
    }

    pub fn set_sprite_zero_hit(&mut self)
        ensures
            *final(self) == old(self).with_status_set(STATUS_SPRITE_ZERO_HIT),
    {
        self.status |= STATUS_SPRITE_ZERO_HIT;
    }

    pub fn clear_sprite_zero_hit(&mut self)
        ensures
            *final(self) == old(self).with_status_cleared(STATUS_SPRITE_ZERO_HIT),
    {
        self.status &= !STATUS_SPRITE_ZERO_HIT;
    }

    pub fn is_vblank(&self) -> (flag: bool)
        ensures
            flag == self.spec_is_vblank(),
    {
        self.status & STATUS_VBLANK != 0
    }

    pub fn set_vblank(&mut self)
        ensures
            *final(self) == old(self).with_status_set(STATUS_VBLANK),
    {
        self.status |= STATUS_VBLANK;
    }

    pub fn clear_vblank(&mut self)
        ensures
            *final(self) == old(self).with_status_cleared(STATUS_VBLANK),
    {
        self.status &= !STATUS_VBLANK;
    }

    pub fn scroll_x(&self) -> (scroll: Byte)
        ensures
            scroll == self.scroll_x,
    {
        self.scroll_x
    }

    pub fn scroll_y(&self) -> (scroll: Byte)
        ensures
            scroll == self.scroll_y,
    {
        self.scroll_y
    }

    pub fn real_scroll_x(&self) -> (scroll: u16)
        ensures
            scroll == self.spec_real_scroll_x(),
            scroll == self.scroll_x + (self.spec_name_table_id() % 2) * 256,
            scroll < 512,
    {
        self.scroll_x as u16 + (self.name_table_id() as u16 % 2 * SCREEN_WIDTH)
    }

    pub fn real_scroll_y(&self) -> (scroll: u16)
        ensures
            scroll == self.spec_real_scroll_y(),
            scroll == self.scroll_y + (self.spec_name_table_id() / 2) * 256,
            scroll < 512,
    {
        self.scroll_y as u16 + (self.name_table_id() as u16 / 2 * SCREEN_WIDTH)
    }
}

/// Setting or clearing one of the three status flags changes that flag and
/// leaves each other one as it was.
pub proof fn lemma_status_flags(registers: PPURegisters, flag: u8, other: u8)
    requires
        flag == STATUS_SPRITE_OVERFLOW || flag == STATUS_SPRITE_ZERO_HIT || flag == STATUS_VBLANK,
        other == STATUS_SPRITE_OVERFLOW || other == STATUS_SPRITE_ZERO_HIT || other
            == STATUS_VBLANK,
        other != flag,
    ensures
        registers.with_status_set(flag).status & flag != 0,
        registers.with_status_cleared(flag).status & flag == 0,
        registers.with_status_set(flag).status & other == registers.status & other,
        registers.with_status_cleared(flag).status & other == registers.status & other,
{
    let s = registers.status;
    assert({
        &&& (s | flag) & flag != 0
        &&& (s & !flag) & flag == 0
        &&& (s | flag) & other == s & other
        &&& (s & !flag) & other == s & other
    }) by (bit_vector)
        requires
            flag == 0x20 || flag == 0x40 || flag == 0x80,
            other == 0x20 || other == 0x40 || other == 0x80,
            other != flag,
    ;
}

/// Two address writes from an open latch give the 16-bit address whose high
/// byte is the first and whose low byte is the second.
pub proof fn lemma_address_written_twice(registers: PPURegisters, high: u8, low: u8)
    requires
        registers.is_first_address_write,
    ensures
        registers.spec_write_address(high).spec_write_address(low).address == high * 0x100 + low,
        registers.spec_write_address(high).spec_write_address(low).is_first_address_write,
{
}

/// The second address write sets the low byte and keeps the high byte,
/// whatever the address has become since the first write.
pub proof fn lemma_second_address_write(registers: PPURegisters, low: u8)
    requires
        !registers.is_first_address_write,
    ensures
        registers.spec_write_address(low).address % 0x100 == low,
        registers.spec_write_address(low).address / 0x100 == registers.address / 0x100,
        registers.spec_write_address(low).is_first_address_write,
{
}

} // verus!
