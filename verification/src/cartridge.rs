//! A cartridge image: a 16-byte header, then the program ROM in units of
//! 16 KiB, then the character ROM in units of 8 KiB.
use vstd::prelude::*;
use vstd::slice::{slice_subrange, slice_to_vec};
use crate::rom::ROM;

verus! {

pub const HEADER_SIZE: usize = 0x0010;

pub const PROGRAM_ROM_UNIT_SIZE: usize = 0x4000;

pub const CHARACTER_ROM_UNIT_SIZE: usize = 0x2000;

pub struct Cartridge {
    pub program_rom: ROM,
    pub character_rom: ROM,
    pub is_horizontal_mirroring: bool,
}

/// The size of the program ROM that an image announces: 16 KiB times header
/// byte 4.
pub open spec fn program_rom_size(data: Seq<u8>) -> int {
    data[4] * PROGRAM_ROM_UNIT_SIZE
}

/// The size of the character ROM that an image announces: 8 KiB times header
/// byte 5.
pub open spec fn character_rom_size(data: Seq<u8>) -> int {
    data[5] * CHARACTER_ROM_UNIT_SIZE
}

/// An image holds its header and all of the two ROMs that the header
/// announces.
pub open spec fn image_complete(data: Seq<u8>) -> bool {
    &&& data.len() >= HEADER_SIZE
    &&& data.len() >= HEADER_SIZE + program_rom_size(data) + character_rom_size(data)
}

/// The program ROM of an image: the bytes that follow the header.
pub open spec fn program_rom_of(data: Seq<u8>) -> Seq<u8> {
    data.subrange(HEADER_SIZE as int, HEADER_SIZE + program_rom_size(data))
}

/// The character ROM of an image: the bytes that follow the program ROM.
pub open spec fn character_rom_of(data: Seq<u8>) -> Seq<u8> {
    data.subrange(
        HEADER_SIZE + program_rom_size(data),
        HEADER_SIZE + program_rom_size(data) + character_rom_size(data),
    )
}

/// The mirroring of an image: horizontal when bit 0 of header byte 6 is
/// clear.
pub open spec fn horizontal_mirroring_of(data: Seq<u8>) -> bool {
    data[6] & 0b0000_0001 == 0
}

impl Cartridge {
    /// Whether `data` holds its header and all of the two ROMs that the
    /// header announces, so that it can be taken apart.
    pub fn is_complete(data: &[u8]) -> (complete: bool)
        ensures
            complete == image_complete(data@),
    {
        if data.len() < HEADER_SIZE {
            return false;
        }
        let program_rom_size = data[4] as usize * PROGRAM_ROM_UNIT_SIZE;
        let character_rom_size = data[5] as usize * CHARACTER_ROM_UNIT_SIZE;
        data.len() - HEADER_SIZE >= program_rom_size && data.len() - HEADER_SIZE
            - program_rom_size >= character_rom_size
    }

    /// Takes an image apart.
    pub fn new(data: &[u8]) -> (cartridge: Self)
        requires
            image_complete(data@),
        ensures
            cartridge.program_rom@ == program_rom_of(data@),
            cartridge.character_rom@ == character_rom_of(data@),
            cartridge.is_horizontal_mirroring == horizontal_mirroring_of(data@),
    {
        let program_rom_size = data[4] as usize * PROGRAM_ROM_UNIT_SIZE;
        let character_rom_size = data[5] as usize * CHARACTER_ROM_UNIT_SIZE;
        let is_horizontal_mirroring = data[6] & 0b0000_0001 == 0;

        let program_rom_start = HEADER_SIZE;
        let program_rom_end = program_rom_start + program_rom_size;
        let character_rom_start = program_rom_end;
        let character_rom_end = character_rom_start + character_rom_size;

        let program_rom_data = slice_to_vec(
            slice_subrange(data, program_rom_start, program_rom_end),
        );
        let character_rom_data = slice_to_vec(
            slice_subrange(data, character_rom_start, character_rom_end),
        );
        let program_rom = ROM::new(program_rom_data);
        let character_rom = ROM::new(character_rom_data);

        Cartridge { program_rom, character_rom, is_horizontal_mirroring }
    }
}

} // verus!
