//! The picture processing unit: a state machine clocked by scanlines that
//! builds, line by line, the background cells and the sprite list of each
//! frame, raises NMI when vertical blank starts and hands the finished frame
//! out when the last scanline ends.
use vstd::prelude::*;
use crate::interrupt::Interrupt;
use crate::ppu::attribute::{block_of, block_palette, lemma_block_palette_range, Attribute};
use crate::ppu::background::{
    background_wf, cell_wf, line_view, line_wf, BackgroundCellView,
};
use crate::ppu::bus::PpuBusView;
use crate::ppu::oam::{sprite_record, OAM};
use crate::ppu::register::{PPURegisters, STATUS_SPRITE_ZERO_HIT, STATUS_VBLANK};
use crate::ppu::sprite::{
    duplicate_sprites, sprite_wf, sprites_view, sprites_wf, SpriteAttributeView, SpriteView,
};
use crate::ppu::tile::{lemma_pattern_pixels_wf, pattern_pixels, tile_wf};
use crate::ram::RAM;
use crate::{Byte, Cycle, Word};

pub mod attribute;
pub mod background;
pub mod bus;
pub mod oam;
pub mod palette;
pub mod register;
pub mod sprite;
pub mod tile;

pub use background::{Background, BackgroundCell, BackgroundLine};
pub use bus::PPUBus;
pub use palette::Palette;
pub use sprite::Sprite;
pub use tile::Tile;

verus! {

pub const VRAM_SIZE: usize = 2048;

pub type VRAM = RAM<VRAM_SIZE>;

pub const CRAM_SIZE: usize = 8192;

pub type CRAM = RAM<CRAM_SIZE>;

pub const SCREEN_WIDTH: u16 = 256;

pub const SCREEN_HEIGHT: u16 = 240;

/// The length of one scanline in PPU cycles.
pub const SCANLINE_CYCLES: u32 = 341;

/// The number of scanlines of one frame.
pub const FRAME_SCANLINES: u16 = 262;

/// The scanline at whose end vertical blank starts.
pub const POST_RENDER_SCANLINE: u16 = 240;

/// The scanline at whose end the frame is complete.
pub const PRE_RENDER_SCANLINE: u16 = 261;

/// What the compositor needs of one frame.
#[derive(Debug)]
pub struct RenderingData {
    pub background: Background,
    pub sprites: Vec<Sprite>,
}

/// One frame's rendering data as a mathematical value.
pub struct RenderingDataView {
    pub background: Seq<Seq<BackgroundCellView>>,
    pub sprites: Seq<SpriteView>,
}

impl RenderingDataView {
    /// A complete frame: 30 lines of 32 cells, and 64 sprites.
    pub open spec fn wf(self) -> bool {
        &&& background_wf(self.background)
        &&& sprites_wf(self.sprites)
    }
}

impl View for RenderingData {
    type V = RenderingDataView;

    open spec fn view(&self) -> RenderingDataView {
        RenderingDataView { background: self.background@, sprites: sprites_view(self.sprites@) }
    }
}

/// What a call that may complete a frame hands out, as a mathematical value.
pub open spec fn frame_view(frame: Option<RenderingData>) -> Option<RenderingDataView> {
    match frame {
        Some(data) => Some(data@),
        None => None,
    }
}

pub struct PPU {
    pub bus: PPUBus,
    pub registers: PPURegisters,
    pub oam: OAM,
    pub cycle: Cycle,
    pub row: u16,
    pub background: Background,
    pub sprites: Vec<Sprite>,
    pub interrupt: Interrupt,
}

/// The PPU as a mathematical value.
pub struct PpuView {
    pub bus: PpuBusView,
    pub registers: PPURegisters,
    /// Object attribute memory, 256 bytes.
    pub oam: Seq<u8>,
    /// PPU cycles into the current scanline.
    pub cycle: int,
    /// The current scanline, 0 to 261.
    pub row: int,
    /// The background lines built so far in this frame.
    pub background: Seq<Seq<BackgroundCellView>>,
    /// The sprite list of this frame.
    pub sprites: Seq<SpriteView>,
    /// The interrupt line.
    pub interrupt: Interrupt,
}

impl View for PPU {
    type V = PpuView;

    open spec fn view(&self) -> PpuView {
        PpuView {
            bus: self.bus@,
            registers: self.registers,
            oam: self.oam@,
            cycle: self.cycle as int,
            row: self.row as int,
            background: self.background@,
            sprites: sprites_view(self.sprites@),
            interrupt: self.interrupt,
        }
    }
}

/// The length of one frame in PPU cycles: 262 scanlines of 341 cycles.
pub open spec fn frame_cycles() -> int {
    341int * 262
}

/// The number of background lines that exist once scanlines `0..row` of a
/// frame have ended: one for every eighth visible scanline.
pub open spec fn lines_built(row: int) -> int {
    if row >= 240 {
        30
    } else {
        (row + 7) / 8
    }
}

/// The tile row of the background that scanline `row` shows under a vertical
/// scroll of `scroll_y` pixels. Two name tables stacked make 60 rows.
pub open spec fn tile_y_at(row: int, scroll_y: int) -> int {
    ((row + scroll_y) / 8) % 60
}

/// The tile column of the background that screen column `column` shows under
/// a horizontal scroll of `scroll_x` pixels. Two name tables side by side
/// make 64 columns.
pub open spec fn tile_x_at(column: int, scroll_x: int) -> int {
    ((column * 8 + scroll_x) / 8) % 64
}

/// The start of the name table that holds tile (`tile_x`, `tile_y`).
pub open spec fn name_table_base(tile_x: int, tile_y: int) -> int {
    0x2000 + (tile_x / 32) * 0x400 + (tile_y / 30) * 0x800
}

/// The address of the tile id of tile (`tile_x`, `tile_y`).
pub open spec fn name_table_slot(tile_x: int, tile_y: int) -> int {
    name_table_base(tile_x, tile_y) + tile_x % 32 + (tile_y % 30) * 32
}

/// The address of the attribute byte that covers tile (`tile_x`, `tile_y`).
pub open spec fn attribute_table_slot(tile_x: int, tile_y: int) -> int {
    name_table_base(tile_x, tile_y) + 0x3C0 + (tile_x % 32) / 4 + (tile_y % 30) / 4 * 8
}

/// The address of the 16-byte pattern of tile `tile_id`: 16 bytes per tile,
/// from the start of the pattern table that the control register selects.
pub open spec fn pattern_slot(registers: PPURegisters, tile_id: u8, is_sprite: bool) -> int {
    (if is_sprite {
        registers.spec_sprite_table_offset()
    } else {
        registers.spec_background_table_offset()
    }) + tile_id * 16
}

/// The 16 bytes of the pattern at `address`.
pub open spec fn pattern_at(bus: PpuBusView, address: int) -> Seq<u8> {
    Seq::new(16, |i: int| bus.read((address + i) as u16))
}

/// Tile `tile_id`, decoded from its pattern.
pub open spec fn tile_of(
    bus: PpuBusView,
    registers: PPURegisters,
    tile_id: u8,
    is_sprite: bool,
) -> Seq<Seq<u8>> {
    pattern_pixels(pattern_at(bus, pattern_slot(registers, tile_id, is_sprite)))
}

/// The address of the first colour of palette `palette_id`: background
/// palettes from 0x3F00, sprite palettes from 0x3F10, four bytes each.
pub open spec fn palette_base(palette_id: u8, is_sprite: bool) -> int {
    (if is_sprite {
        0x3F10int
    } else {
        0x3F00int
    }) + palette_id * 4
}

/// The four colour ids of palette `palette_id`.
pub open spec fn palette_of(bus: PpuBusView, palette_id: u8, is_sprite: bool) -> Seq<u8> {
    Seq::new(4, |i: int| bus.read((palette_base(palette_id, is_sprite) + i) as u16))
}

/// The background cell of screen column `column` on scanline `row`: its tile
/// comes from the name table, its palette from the attribute table, and it
/// records the scroll and the visibility in effect.
pub open spec fn cell_of(
    bus: PpuBusView,
    registers: PPURegisters,
    row: int,
    column: int,
) -> BackgroundCellView {
    let tile_x = tile_x_at(column, registers.spec_real_scroll_x() as int);
    let tile_y = tile_y_at(row, registers.spec_real_scroll_y() as int);
    let tile_id = bus.read(name_table_slot(tile_x, tile_y) as u16);
    let attribute = bus.read(attribute_table_slot(tile_x, tile_y) as u16);
    BackgroundCellView {
        tile: tile_of(bus, registers, tile_id, false),
        palette_value: palette_of(
            bus,
            block_palette(attribute, block_of(tile_x as u16, tile_y as u16)),
            false,
        ),
        scroll_x: registers.spec_real_scroll_x(),
        scroll_y: registers.spec_real_scroll_y(),
        is_visible: registers.spec_is_background_visible(),
    }
}

/// The 32 background cells of scanline `row`.
pub open spec fn line_of(bus: PpuBusView, registers: PPURegisters, row: int) -> Seq<
    BackgroundCellView,
> {
    Seq::new(32, |column: int| cell_of(bus, registers, row, column))
}

/// The attributes that OAM attribute byte `data` stands for: the palette in
/// bits 0-1, priority in bit 5, the flips in bits 6 and 7.
pub open spec fn sprite_attribute_of(bus: PpuBusView, data: u8) -> SpriteAttributeView {
    SpriteAttributeView {
        palette_value: palette_of(bus, data & 0b11, true),
        is_low_priority: data & 0b10_0000 != 0,
        is_flip_horizontal: data & 0b100_0000 != 0,
        is_flip_vertical: data & 0b1000_0000 != 0,
    }
}

/// The sprite that OAM record `entry` (y, tile id, attribute, x) describes.
pub open spec fn sprite_of(bus: PpuBusView, registers: PPURegisters, entry: Seq<u8>) -> SpriteView {
    SpriteView {
        x: entry[3],
        y: entry[0],
        tile: tile_of(bus, registers, entry[1], true),
        attribute: sprite_attribute_of(bus, entry[2]),
    }
}

/// The 64 sprites that object attribute memory `oam` describes.
pub open spec fn sprites_of(bus: PpuBusView, registers: PPURegisters, oam: Seq<u8>) -> Seq<
    SpriteView,
> {
    Seq::new(64, |index: int| sprite_of(bus, registers, sprite_record(oam, index)))
}

impl PpuView {
    /// A PPU at power-up, on the given memory and interrupt line.
    pub open spec fn initial(bus: PpuBusView, interrupt: Interrupt) -> PpuView {
        PpuView {
            bus,
            registers: PPURegisters::initial(),
            oam: crate::ram::zeroed(256),
            cycle: 0,
            row: 0,
            background: Seq::empty(),
            sprites: Seq::empty(),
            interrupt,
        }
    }

    pub open spec fn wf(self) -> bool {
        &&& self.bus.wf()
        &&& self.oam.len() == 256
        &&& 0 <= self.cycle < 341
        &&& 0 <= self.row < 262
        &&& forall|i: int|
            0 <= i < self.background.len() ==> line_wf(#[trigger] self.background[i])
        &&& forall|i: int| 0 <= i < self.sprites.len() ==> sprite_wf(#[trigger] self.sprites[i])
        &&& self.row > 0 ==> self.background.len() == lines_built(self.row) && self.sprites.len()
            == 64
    }

    /// PPU cycles since the current frame began.
    pub open spec fn position(self) -> int {
        self.row * 341 + self.cycle
    }

    // The register ports.

    /// The byte behind the VRAM data port: the byte at the VRAM address, or
    /// 0 where the address lies above the PPU's address space.
    pub open spec fn vram_data(self) -> u8 {
        if self.registers.address <= 0x3FFF {
            self.bus.read(self.registers.address)
        } else {
            0
        }
    }

    /// The byte that a read of register `addr` (0x2000-0x2007) returns: the
    /// status at 0x2002, OAM data at 0x2004, VRAM data at 0x2007, and 0 at
    /// the write-only registers.
    pub open spec fn register_value(self, addr: u16) -> u8 {
        if addr == 0x2002 {
            self.registers.status
        } else if addr == 0x2004 {
            self.oam[self.registers.oam_address as int]
        } else if addr == 0x2007 {
            self.vram_data()
        } else {
            0
        }
    }

    /// The PPU after a read of register `addr`: a read of the status clears
    /// vblank and opens both write latches; other reads change nothing.
    pub open spec fn read_register(self, addr: u16) -> PpuView {
        if addr == 0x2002 {
            PpuView {
                registers: self.registers.with_status_cleared(
                    STATUS_VBLANK,
                ).spec_clear_scroll_latch().spec_clear_address_latch(),
                ..self
            }
        } else {
            self
        }
    }

    /// The PPU after `data` is written to register `addr` (0x2000-0x2007).
    /// A write to the read-only status register changes nothing.
    pub open spec fn write_register(self, addr: u16, data: u8) -> PpuView {
        if addr == 0x2000 {
            PpuView { registers: self.registers.spec_write_ctrl(data), ..self }
        } else if addr == 0x2001 {
            PpuView { registers: self.registers.spec_write_mask(data), ..self }
        } else if addr == 0x2003 {
            PpuView { registers: self.registers.spec_write_oam_address(data), ..self }
        } else if addr == 0x2004 {
            PpuView {
                oam: self.oam.update(self.registers.oam_address as int, data),
                registers: self.registers.spec_increment_oam_address(),
                ..self
            }
        } else if addr == 0x2005 {
            PpuView { registers: self.registers.spec_write_scroll(data), ..self }
        } else if addr == 0x2006 {
            PpuView { registers: self.registers.spec_write_address(data), ..self }
        } else if addr == 0x2007 {
            PpuView {
                bus: if self.registers.address <= 0x3FFF {
                    self.bus.write(self.registers.address, data)
                } else {
                    self.bus
                },
                registers: self.registers.spec_increment_address(),
                ..self
            }
        } else {
            self
        }
    }

    /// The PPU after byte `index` of a DMA transfer: `data` lands in OAM at
    /// the OAM address plus `index`, modulo 256.
    pub open spec fn transfer_sprite(self, index: u8, data: u8) -> PpuView {
        PpuView {
            oam: self.oam.update((self.registers.oam_address + index) % 0x100, data),
            ..self
        }
    }

    // What the PPU fetches from its memory.

    /// The tile row that the current scanline shows.
    pub open spec fn tile_y(self) -> int {
        tile_y_at(self.row, self.registers.spec_real_scroll_y() as int)
    }

    /// The tile column that screen column `column` shows.
    pub open spec fn tile_x(self, column: int) -> int {
        tile_x_at(column, self.registers.spec_real_scroll_x() as int)
    }

    /// The address of the 16-byte pattern of tile `tile_id`.
    pub open spec fn pattern_table_slot(self, tile_id: u8, is_sprite: bool) -> int {
        pattern_slot(self.registers, tile_id, is_sprite)
    }

    /// Tile `tile_id`, decoded.
    pub open spec fn tile(self, tile_id: u8, is_sprite: bool) -> Seq<Seq<u8>> {
        tile_of(self.bus, self.registers, tile_id, is_sprite)
    }

    /// The four colour ids of palette `palette_id`.
    pub open spec fn palette_value(self, palette_id: u8, is_sprite: bool) -> Seq<u8> {
        palette_of(self.bus, palette_id, is_sprite)
    }

    /// The id of the tile at (`tile_x`, `tile_y`).
    pub open spec fn tile_id(self, tile_x: int, tile_y: int) -> u8 {
        self.bus.read(name_table_slot(tile_x, tile_y) as u16)
    }

    /// The attribute byte that covers the tile at (`tile_x`, `tile_y`).
    pub open spec fn attribute_byte(self, tile_x: int, tile_y: int) -> u8 {
        self.bus.read(attribute_table_slot(tile_x, tile_y) as u16)
    }

    /// The background cell of screen column `column` on the current
    /// scanline.
    pub open spec fn background_cell(self, column: int) -> BackgroundCellView {
        cell_of(self.bus, self.registers, self.row, column)
    }

    /// The 32 background cells of the current scanline.
    pub open spec fn background_line(self) -> Seq<BackgroundCellView> {
        line_of(self.bus, self.registers, self.row)
    }

    /// The attributes that OAM attribute byte `data` stands for.
    pub open spec fn sprite_attribute(self, data: u8) -> SpriteAttributeView {
        sprite_attribute_of(self.bus, data)
    }

    /// The sprite that OAM record `entry` (y, tile id, attribute, x)
    /// describes.
    pub open spec fn sprite_from(self, entry: Seq<u8>) -> SpriteView {
        sprite_of(self.bus, self.registers, entry)
    }

    /// The 64 sprites that OAM describes.
    pub open spec fn sprite_list(self) -> Seq<SpriteView> {
        sprites_of(self.bus, self.registers, self.oam)
    }

    /// Sprite zero hit: sprite 0 starts on the current scanline and both
    /// layers are shown.
    pub open spec fn sprite_hit(self) -> bool {
        &&& self.oam[0] == self.row
        &&& self.registers.spec_is_background_visible()
        &&& self.registers.spec_is_sprite_visible()
    }

    // The scanline clock.

    /// The PPU with a new sprite list and no background, as at the end of
    /// scanline 0.
    pub open spec fn frame_started(self) -> PpuView {
        PpuView { background: Seq::empty(), sprites: self.sprite_list(), ..self }
    }

    /// The PPU once the current scanline has ended. In this order: at
    /// scanline 0 the frame starts over; a sprite zero hit is recorded;
    /// every eighth visible scanline adds a background line; the end of
    /// scanline 240 starts vblank and, if enabled, raises NMI; the end of
    /// scanline 261 clears vblank, the hit and NMI and goes back to scanline
    /// 0, every other one goes on to the next scanline.
    pub open spec fn line_step(self) -> PpuView {
        let started = if self.row == 0 {
            self.frame_started()
        } else {
            self
        };
        let hit = if started.sprite_hit() {
            PpuView {
                registers: started.registers.with_status_set(STATUS_SPRITE_ZERO_HIT),
                ..started
            }
        } else {
            started
        };
        let drawn = if hit.row < 240 && hit.row % 8 == 0 {
            PpuView { background: hit.background.push(hit.background_line()), ..hit }
        } else {
            hit
        };
        let blanked = if drawn.row == 240 {
            PpuView {
                registers: drawn.registers.with_status_set(STATUS_VBLANK),
                interrupt: if drawn.registers.spec_has_vblank_nmi() {
                    Interrupt { nmi: true, ..drawn.interrupt }
                } else {
                    drawn.interrupt
                },
                ..drawn
            }
        } else {
            drawn
        };
        if blanked.row == 261 {
            PpuView {
                registers: blanked.registers.with_status_cleared(
                    STATUS_VBLANK,
                ).with_status_cleared(STATUS_SPRITE_ZERO_HIT),
                row: 0,
                interrupt: Interrupt { nmi: false, ..blanked.interrupt },
                ..blanked
            }
        } else {
            PpuView { row: blanked.row + 1, ..blanked }
        }
    }

    /// The frame that the end of the current scanline completes, if it is the
    /// last scanline.
    pub open spec fn line_frame(self) -> Option<RenderingDataView> {
        if self.row == 261 {
            Some(RenderingDataView { background: self.background, sprites: self.sprites })
        } else {
            None
        }
    }

    /// The PPU after `lines` scanlines have ended.
    pub open spec fn advance(self, lines: nat) -> PpuView
        decreases lines,
    {
        if lines == 0 {
            self
        } else {
            self.line_step().advance((lines - 1) as nat)
        }
    }

    /// The last frame completed while `lines` scanlines end, if any is.
    pub open spec fn frame_during(self, lines: nat) -> Option<RenderingDataView>
        decreases lines,
    {
        if lines == 0 {
            None
        } else {
            match self.line_step().frame_during((lines - 1) as nat) {
                Some(frame) => Some(frame),
                None => self.line_frame(),
            }
        }
    }

    /// The number of scanlines that end while `ticks` PPU cycles pass.
    pub open spec fn lines_within(self, ticks: nat) -> nat {
        ((self.cycle + ticks) / 341) as nat
    }

    /// The PPU after `ticks` PPU cycles.
    pub open spec fn run(self, ticks: nat) -> PpuView {
        PpuView { cycle: (self.cycle + ticks) % 341, ..self.advance(self.lines_within(ticks)) }
    }

    /// The frame that `ticks` PPU cycles complete: the last one, if they
    /// complete more than one.
    pub open spec fn run_frame(self, ticks: nat) -> Option<RenderingDataView> {
        self.frame_during(self.lines_within(ticks))
    }
}

impl PPU {
    pub fn new(bus: PPUBus, interrupt: Interrupt) -> (ppu: Self)
        ensures
            ppu@ == PpuView::initial(bus@, interrupt),
            ppu@.wf(),
    {
        let ppu = PPU {
            bus,
            registers: PPURegisters::default(),
            oam: OAM::default(),
            cycle: 0,
            row: 0,
            background: Background::default(),
            sprites: Vec::new(),
            interrupt,
        };
        proof {
            ppu.bus.lemma_wf();
            assert(ppu@.sprites =~= Seq::<SpriteView>::empty());
        }
        ppu
    }

    /// Advances the PPU by `cycle` PPU cycles, scanline by scanline, and
    /// hands out the frame that was completed on the way, if one was.
    pub fn run(&mut self, cycle: Cycle) -> (frame: Option<RenderingData>)
        requires
            old(self)@.wf(),
        ensures
            final(self)@ == old(self)@.run(cycle as nat),
            frame_view(frame) == old(self)@.run_frame(cycle as nat),
            final(self)@.wf(),
            frame is Some <==> old(self)@.position() + cycle >= frame_cycles(),
            final(self)@.position() == (old(self)@.position() + cycle) % frame_cycles(),
            frame matches Some(data) ==> data@.wf(),
    {
        let mut remaining: u64 = self.cycle as u64 + cycle as u64;
        let mut frame: Option<RenderingData> = None;
        let ghost lines = old(self)@.lines_within(cycle as nat);
        let ghost rest = (old(self)@.cycle + cycle) % 341;
        let ghost mut done: nat = 0;
        while remaining >= SCANLINE_CYCLES as u64
            invariant
                self@.wf(),
                self@.cycle == old(self)@.cycle,
                done <= lines,
                0 <= rest < 341,
                remaining == 341 * (lines - done) + rest,
                rest == (old(self)@.cycle + cycle) % 341,
                old(self)@.advance(lines) == self@.advance((lines - done) as nat),
                old(self)@.frame_during(lines) == (match self@.frame_during(
                    (lines - done) as nat,
                ) {
                    Some(later) => Some(later),
                    None => frame_view(frame),
                }),
            decreases remaining,
        {
            remaining -= SCANLINE_CYCLES as u64;
            match self.finish_scanline() {
                Some(data) => {
                    frame = Some(data);
                },
                None => {},
            }
            proof {
                done = done + 1;
            }
        }
        self.cycle = remaining as u32;
        proof {
            lemma_run(old(self)@, cycle as nat);
        }
        frame
    }

    /// Ends the current scanline.
    pub fn finish_scanline(&mut self) -> (frame: Option<RenderingData>)
        requires
            old(self)@.wf(),
        ensures
            final(self)@ == old(self)@.line_step(),
            frame_view(frame) == old(self)@.line_frame(),
            final(self)@.wf(),
    {
        proof {
            lemma_line_step_wf(old(self)@);
        }
        if self.row == 0 {
            self.background.clear();
            self.build_sprites();
        }
        if self.has_sprite_hit() {
            self.registers.set_sprite_zero_hit();
        }
        if self.row < SCREEN_HEIGHT && self.row % 8 == 0 {
            self.build_background_line();
        }
        if self.row == POST_RENDER_SCANLINE {
            self.registers.set_vblank();
            if self.registers.has_vblank_nmi() {
                self.interrupt.set_nmi();
            }
        }
        if self.row == PRE_RENDER_SCANLINE {
            self.registers.clear_vblank();
            self.registers.clear_sprite_zero_hit();
            self.row = 0;
            self.interrupt.clear_nmi();
            return Some(
                RenderingData {
                    background: self.background.duplicate(),
                    sprites: duplicate_sprites(&self.sprites),
                },
            );
        }
        self.row += 1;
        None
    }

    /// Reads the register at `addr`, one of 0x2000-0x2007.
    pub fn read_register(&mut self, addr: Word) -> (value: Byte)
        requires
            0x2000 <= addr <= 0x2007,
            old(self)@.wf(),
        ensures
            value == old(self)@.register_value(addr),
            final(self)@ == old(self)@.read_register(addr),
            final(self)@.wf(),
            final(self)@.position() == old(self)@.position(),
    {
        match addr {
            0x2002 => {
                let data = self.registers.read_status();
                self.registers.clear_vblank();
                self.registers.clear_scroll_latch();
                self.registers.clear_address_latch();
                data
            },
            0x2004 => {
                let oam_address = self.registers.oam_address();
                self.oam.read(oam_address)
            },
            0x2007 => {
                let address = self.registers.address();
                if address <= 0x3FFF {
                    self.bus.read(address)
                } else {
                    0
                }
            },
            _ => 0,
        }
    }

    /// Writes `data` to the register at `addr`, one of 0x2000-0x2007.
    pub fn write_register(&mut self, addr: Word, data: Byte)
        requires
            0x2000 <= addr <= 0x2007,
            old(self)@.wf(),
        ensures
            final(self)@ == old(self)@.write_register(addr, data),
            final(self)@.wf(),
            final(self)@.position() == old(self)@.position(),
    {
        match addr {
            0x2000 => self.registers.write_ctrl(data),
            0x2001 => self.registers.write_mask(data),
            0x2003 => self.registers.write_oam_address(data),
            0x2004 => {
                let oam_address = self.registers.oam_address();
                self.oam.write(oam_address, data);
                self.registers.increment_oam_address();
            },
            0x2005 => self.registers.write_scroll(data),
            0x2006 => self.registers.write_address(data),
            0x2007 => {
                let address = self.registers.address();
                if address <= 0x3FFF {
                    self.bus.write(address, data);
                }
                self.registers.increment_address();
            },
            _ => {},
        }
    }

    pub fn transfer_sprite(&mut self, index: Byte, data: Byte)
        requires
            old(self)@.wf(),
        ensures
            final(self)@ == old(self)@.transfer_sprite(index, data),
            final(self)@.wf(),
            final(self)@.position() == old(self)@.position(),
    {
        let oam_address = self.registers.oam_address();
        self.oam.write(((oam_address as u16 + index as u16) % 0x100) as u8, data);
    }

    pub fn build_sprites(&mut self)
        ensures
            final(self)@ == (PpuView { sprites: old(self)@.sprite_list(), ..old(self)@ }),
    {
        let mut sprites: Vec<Sprite> = Vec::new();
        let mut iterator = self.oam.iter();
        loop
            invariant
                iterator.memory() == self@.oam,
                0 <= iterator.position() <= 64,
                sprites@.len() == iterator.position(),
                forall|i: int|
                    0 <= i < sprites@.len() ==> (#[trigger] sprites@[i])@ == self@.sprite_from(
                        sprite_record(self@.oam, i),
                    ),
            ensures
                sprites@.len() == 64,
            decreases 64 - iterator.position(),
        {
            match iterator.next() {
                Some(sprite_data) => {
                    let sprite = Sprite::new(self, sprite_data);
                    sprites.push(sprite);
                },
                None => {
                    break ;
                },
            }
        }
        assert(sprites_view(sprites@) =~= self@.sprite_list());
        self.sprites = sprites;
    }

    pub fn build_background_line(&mut self)
        requires
            old(self).row < FRAME_SCANLINES,
        ensures
            final(self)@ == (PpuView {
                background: old(self)@.background.push(old(self)@.background_line()),
                ..old(self)@
            }),
    {
        let mut background_line: BackgroundLine = Vec::new();
        for column in 0..32u8
            invariant
                self.row < FRAME_SCANLINES,
                background_line@.len() == column,
                forall|c: int|
                    0 <= c < column ==> (#[trigger] background_line@[c])@
                        == self@.background_cell(c),
        {
            let tile_x = self.tile_x(column);
            let tile_y = self.tile_y();
            let tile_id = self.fetch_tile_id(tile_x, tile_y);
            let tile = self.fetch_tile(tile_id, false);
            let attribute = self.fetch_attribute(tile_x, tile_y);
            let palette_id = attribute.palette_id(tile_x, tile_y);
            proof {
                lemma_block_palette_range(
                    self@.attribute_byte(tile_x as int, tile_y as int),
                    block_of(tile_x, tile_y),
                );
            }
            let palette_value = self.fetch_palette_value(palette_id, false);
            let background_cell = BackgroundCell {
                tile,
                palette_value,
                scroll_x: self.registers.real_scroll_x(),
                scroll_y: self.registers.real_scroll_y(),
                is_visible: self.registers.is_background_visible(),
            };
            background_line.push(background_cell);
        }
        assert(line_view(background_line@) =~= self@.background_line());
        self.background.push_line(background_line);
    }

    pub fn has_sprite_hit(&self) -> (hit: bool)
        ensures
            hit == self@.sprite_hit(),
    {
        self.oam.head_y() as u16 == self.row && self.registers.is_background_visible()
            && self.registers.is_sprite_visible()
    }

    pub fn tile_y(&self) -> (tile_y: u16)
        requires
            self.row < FRAME_SCANLINES,
        ensures
            tile_y == self@.tile_y(),
            tile_y < 60,
    {
        ((self.row + self.registers.real_scroll_y()) / 8) % 60
    }

    pub fn tile_x(&self, column: u8) -> (tile_x: u16)
        requires
            column < 32,
        ensures
            tile_x == self@.tile_x(column as int),
            tile_x < 64,
    {
        ((column as u16 * 8 + self.registers.real_scroll_x()) / 8) % 64
    }

    pub fn name_table_address(&self, tile_x: u16, tile_y: u16) -> (address: Word)
        requires
            tile_x < 64,
            tile_y < 60,
        ensures
            address == name_table_slot(tile_x as int, tile_y as int),
            0x2000 <= address < 0x3000,
    {
        let offset = self.name_table_offset(tile_x, tile_y);
        offset + tile_x % 32 + tile_y % 30 * 32
    }

    pub fn name_table_offset(&self, tile_x: u16, tile_y: u16) -> (offset: Word)
        requires
            tile_x < 64,
            tile_y < 60,
        ensures
            offset == name_table_base(tile_x as int, tile_y as int),
            0x2000 <= offset <= 0x2C00,
    {
        0x2000 + tile_x / 32 * 0x400 + tile_y / 30 * 0x800
    }

    pub fn attribute_table_address(&self, tile_x: u16, tile_y: u16) -> (address: Word)
        requires
            tile_x < 64,
            tile_y < 60,
        ensures
            address == attribute_table_slot(tile_x as int, tile_y as int),
            0x2000 <= address < 0x3000,
    {
        let offset = self.attribute_table_offset(tile_x, tile_y);
        offset + tile_x % 32 / 4 + tile_y % 30 / 4 * 8
    }

    pub fn attribute_table_offset(&self, tile_x: u16, tile_y: u16) -> (offset: Word)
        requires
            tile_x < 64,
            tile_y < 60,
        ensures
            offset == name_table_base(tile_x as int, tile_y as int) + 0x3C0,
    {
        self.name_table_offset(tile_x, tile_y) + 0x3C0
    }

    pub fn pattern_table_address(&self, tile_id: u8, is_sprite: bool) -> (address: Word)
        ensures
            address == self@.pattern_table_slot(tile_id, is_sprite),
            address <= 0x1FF0,
    {
        let offset = self.pattern_table_offset(is_sprite);
        offset + tile_id as Word * 16
    }

    pub fn pattern_table_offset(&self, is_sprite: bool) -> (offset: Word)
        ensures
            offset == if is_sprite {
                self.registers.spec_sprite_table_offset()
            } else {
                self.registers.spec_background_table_offset()
            },
            offset <= 0x1000,
    {
        if is_sprite {
            self.registers.sprite_table_offset()
        } else {
            self.registers.background_table_offset()
        }
    }

    pub fn fetch_tile_id(&self, tile_x: u16, tile_y: u16) -> (tile_id: u8)
        requires
            tile_x < 64,
            tile_y < 60,
        ensures
            tile_id == self@.tile_id(tile_x as int, tile_y as int),
    {
        self.bus.read(self.name_table_address(tile_x, tile_y))
    }

    pub fn fetch_tile(&self, tile_id: u8, is_sprite: bool) -> (tile: Tile)
        ensures
            tile@ == self@.tile(tile_id, is_sprite),
            tile_wf(tile@),
    {
        let address = self.pattern_table_address(tile_id, is_sprite);
        let mut tile_data = [0u8; 16];
        for i in 0..16usize
            invariant
                address == self@.pattern_table_slot(tile_id, is_sprite),
                address <= 0x1FF0,
                forall|k: int|
                    0 <= k < i ==> #[trigger] tile_data[k] == self@.bus.read((address + k) as u16),
        {
            tile_data[i] = self.bus.read(address + i as Word);
        }
        assert(tile_data@ =~= pattern_at(self@.bus, address as int));
        Tile::new(tile_data)
    }

    pub fn fetch_attribute(&self, tile_x: u16, tile_y: u16) -> (attribute: Attribute)
        requires
            tile_x < 64,
            tile_y < 60,
        ensures
            attribute@ == crate::ppu::attribute::block_palettes(
                self@.attribute_byte(tile_x as int, tile_y as int),
            ),
    {
        let address = self.attribute_table_address(tile_x, tile_y);
        let data = self.bus.read(address);
        Attribute::new(data)
    }

    pub fn fetch_palette_value(&self, palette_id: u8, is_sprite: bool) -> (palette_value: [u8; 4])
        requires
            palette_id < 4,
        ensures
            palette_value@ == self@.palette_value(palette_id, is_sprite),
    {
        let offset: Word = if is_sprite {
            0x3F10
        } else {
            0x3F00
        };
        let address = offset + palette_id as Word * 4;
        let mut palette_value = [0u8; 4];
        for i in 0..4usize
            invariant
                address == palette_base(palette_id, is_sprite),
                address <= 0x3F1C,
                forall|k: int|
                    0 <= k < i ==> #[trigger] palette_value[k] == self@.bus.read(
                        (address + k) as u16,
                    ),
        {
            palette_value[i] = self.bus.read(address + i as Word);
        }
        assert(palette_value@ =~= self@.palette_value(palette_id, is_sprite));
        palette_value
    }
}

/// Every line that the PPU builds is complete, and so is every sprite list.
pub proof fn lemma_built_parts_wf(ppu: PpuView)
    ensures
        line_wf(ppu.background_line()),
        sprites_wf(ppu.sprite_list()),
{
    assert forall|column: int| 0 <= column < 32 implies cell_wf(
        #[trigger] ppu.background_line()[column],
    ) by {
        let tile_x = ppu.tile_x(column);
        let tile_y = ppu.tile_y();
        lemma_pattern_pixels_wf(
            pattern_at(ppu.bus, ppu.pattern_table_slot(ppu.tile_id(tile_x, tile_y), false)),
        );
    }
    assert forall|index: int| 0 <= index < 64 implies sprite_wf(
        #[trigger] ppu.sprite_list()[index],
    ) by {
        let entry = sprite_record(ppu.oam, index);
        lemma_pattern_pixels_wf(pattern_at(ppu.bus, ppu.pattern_table_slot(entry[1], true)));
    }
}

/// The end of a scanline keeps the PPU well formed, moves the scanline
/// counter on by one modulo 262, and leaves the cycle counter alone.
pub proof fn lemma_line_step_wf(ppu: PpuView)
    requires
        ppu.wf(),
    ensures
        ppu.line_step().wf(),
        ppu.line_step().row == (ppu.row + 1) % 262,
        ppu.line_step().cycle == ppu.cycle,
        ppu.line_frame() matches Some(frame) ==> frame.wf(),
        ppu.line_frame() is Some <==> ppu.row == 261,
{
    lemma_built_parts_wf(ppu);
    let started = if ppu.row == 0 {
        ppu.frame_started()
    } else {
        ppu
    };
    let hit = if started.sprite_hit() {
        PpuView { registers: started.registers.with_status_set(STATUS_SPRITE_ZERO_HIT), ..started }
    } else {
        started
    };
    lemma_built_parts_wf(hit);
    let next = ppu.line_step();
    assert(next.sprites == started.sprites);
    if ppu.row < 240 && ppu.row % 8 == 0 {
        assert(next.background == started.background.push(hit.background_line()));
        assert forall|i: int| 0 <= i < next.background.len() implies line_wf(
            #[trigger] next.background[i],
        ) by {
            if i < started.background.len() {
                assert(next.background[i] == started.background[i]);
            }
        }
    } else {
        assert(next.background == started.background);
    }
}

/// While `lines` scanlines end, the scanline counter moves on by `lines`
/// modulo 262, and a frame is completed exactly if it passes the last
/// scanline.
pub proof fn lemma_advance(ppu: PpuView, lines: nat)
    requires
        ppu.wf(),
    ensures
        ppu.advance(lines).wf(),
        ppu.advance(lines).row == (ppu.row + lines) % 262,
        ppu.advance(lines).cycle == ppu.cycle,
        ppu.frame_during(lines) is Some <==> ppu.row + lines >= 262,
        ppu.frame_during(lines) matches Some(frame) ==> frame.wf(),
    decreases lines,
{
    if lines > 0 {
        lemma_line_step_wf(ppu);
        lemma_advance(ppu.line_step(), (lines - 1) as nat);
    }
}

/// `ticks` PPU cycles move the position in the frame on by `ticks` modulo the
/// frame's length of 341 x 262 cycles, and complete a frame exactly if they
/// reach the frame's end.
pub proof fn lemma_run(ppu: PpuView, ticks: nat)
    requires
        ppu.wf(),
    ensures
        ppu.run(ticks).wf(),
        ppu.run(ticks).position() == (ppu.position() + ticks) % frame_cycles(),
        ppu.run_frame(ticks) is Some <==> ppu.position() + ticks >= frame_cycles(),
        ppu.run_frame(ticks) matches Some(frame) ==> frame.wf(),
{
    let lines = ppu.lines_within(ticks);
    lemma_advance(ppu, lines);
    let total = ppu.cycle + ticks;
    assert(total == 341 * (total / 341) + total % 341);
    let rows = ppu.row + lines;
    assert(rows == 262 * (rows / 262) + rows % 262);
    let position = ppu.position() + ticks;
    assert(position == 341 * rows + total % 341);
    let q = rows / 262;
    let r = rows % 262;
    assert(frame_cycles() == 89342);
    assert(position == 89342 * q + (341 * r + total % 341));
    vstd::arithmetic::div_mod::lemma_fundamental_div_mod_converse(
        position,
        frame_cycles(),
        rows / 262,
        341 * (rows % 262) + total % 341,
    );
}

/// The PPU after a series of calls of `run`, one for each entry of `ticks`.
pub open spec fn run_all(ppu: PpuView, ticks: Seq<nat>) -> PpuView
    decreases ticks.len(),
{
    if ticks.len() == 0 {
        ppu
    } else {
        run_all(ppu.run(ticks[0]), ticks.drop_first())
    }
}

/// The number of the calls of a series that hand out a frame.
pub open spec fn frames_handed_out(ppu: PpuView, ticks: Seq<nat>) -> nat
    decreases ticks.len(),
{
    if ticks.len() == 0 {
        0
    } else {
        (if ppu.run_frame(ticks[0]) is Some {
            1nat
        } else {
            0nat
        }) + frames_handed_out(ppu.run(ticks[0]), ticks.drop_first())
    }
}

/// The sum of the entries of `ticks`.
pub open spec fn total_ticks(ticks: Seq<nat>) -> nat
    decreases ticks.len(),
{
    if ticks.len() == 0 {
        0
    } else {
        ticks[0] + total_ticks(ticks.drop_first())
    }
}

/// Frame closure: however the cycles are split over calls, once the calls
/// add up to a frame's length of 341 x 262 cycles at least one of them has
/// handed out a frame.
pub proof fn lemma_frame_closure(ppu: PpuView, ticks: Seq<nat>)
    requires
        ppu.wf(),
        total_ticks(ticks) >= frame_cycles(),
    ensures
        frames_handed_out(ppu, ticks) >= 1,
{
    lemma_frames_handed_out(ppu, ticks);
}

proof fn lemma_frames_handed_out(ppu: PpuView, ticks: Seq<nat>)
    requires
        ppu.wf(),
    ensures
        ppu.position() + total_ticks(ticks) >= frame_cycles() ==> frames_handed_out(ppu, ticks) >= 1,
    decreases ticks.len(),
{
    assert(frame_cycles() == 89342);
    if ticks.len() > 0 {
        lemma_run(ppu, ticks[0]);
        lemma_frames_handed_out(ppu.run(ticks[0]), ticks.drop_first());
    }
}

/// A read of the status register clears vblank and opens both write latches,
/// whatever the state; the other two status flags stay.
pub proof fn lemma_status_read_clears(ppu: PpuView)
    ensures
        !ppu.read_register(0x2002).registers.spec_is_vblank(),
        ppu.read_register(0x2002).registers.is_first_scroll_write,
        ppu.read_register(0x2002).registers.is_first_address_write,
        ppu.read_register(0x2002).registers.spec_is_sprite_zero_hit()
            == ppu.registers.spec_is_sprite_zero_hit(),
        ppu.read_register(0x2002).registers.spec_is_sprite_overflow()
            == ppu.registers.spec_is_sprite_overflow(),
        ppu.register_value(0x2002) == ppu.registers.status,
{
    crate::ppu::register::lemma_status_flags(ppu.registers, STATUS_VBLANK, STATUS_SPRITE_ZERO_HIT);
    crate::ppu::register::lemma_status_flags(
        ppu.registers,
        STATUS_VBLANK,
        crate::ppu::register::STATUS_SPRITE_OVERFLOW,
    );
}

/// After two writes to the address register and a read of the status, the
/// next write to the address register lands in the high byte.
pub proof fn lemma_status_read_resets_address_latch(ppu: PpuView, high: u8, low: u8, next: u8)
    ensures
        ppu.write_register(0x2006, high).write_register(0x2006, low).read_register(
            0x2002,
        ).write_register(0x2006, next).registers.address == next * 0x100,
        !ppu.write_register(0x2006, high).write_register(0x2006, low).read_register(
            0x2002,
        ).write_register(0x2006, next).registers.is_first_address_write,
{
}

} // verus!
