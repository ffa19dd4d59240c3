//! Where the header fields lie in a cartridge image.
use vstd::prelude::*;

verus! {

/// Offset of the boot logo bitmap.
pub const NINTENDO_LOGO_PTR: usize = 0x0104;

/// Offset of the title field.
pub const TITLE_PTR: usize = 0x0134;

/// Offset of the new licensee code.
pub const NEW_LICENSEE_CODE_PTR: usize = 0x0144;

/// Offset of the SGB flag.
pub const SGB_FLAG_PTR: usize = 0x0146;

/// Offset of the cartridge type.
pub const CARTRIDGE_TYPE_PTR: usize = 0x0147;

/// Offset of the ROM size code.
pub const ROM_SIZE_PTR: usize = 0x0148;

/// Offset of the RAM size code.
pub const RAM_SIZE_PTR: usize = 0x0149;

/// Offset of the destination code.
pub const DESTINATION_CODE_PTR: usize = 0x014A;

/// Offset of the old licensee code.
pub const OLD_LICENSEE_CODE_PTR: usize = 0x014B;

/// Offset of the ROM version, the last byte that the header checksum covers.
pub const ROM_VERSION_PTR: usize = 0x014C;

/// Offset of the declared header checksum.
pub const HEADER_CHECKSUM_PTR: usize = 0x014D;

/// Offset of the declared global checksum: two bytes, the high one first.
pub const GLOBAL_CHECKSUM_PTR: usize = 0x014E;

/// Length of the shortest image that holds a whole header. The header ends
/// with the low byte of the global checksum at offset `0x014F`, so an image
/// holds it exactly when its length exceeds that offset.
pub const HEADER_SIZE: usize = 0x0150;

/// Length of the boot logo bitmap.
pub const NINTENDO_LOGO_SIZE: usize = 0x30;

/// Length of the title field.
pub const TITLE_SIZE: usize = 0x10;

/// Length of the new licensee code.
pub const NEW_LICENSEE_CODE_SIZE: usize = 0x02;

/// The bitmap that the console's boot code compares the image against.
pub const NINTENDO_LOGO: [u8; 48] = [
    0xCE, 0xED, 0x66, 0x66, 0xCC, 0x0D, 0x00, 0x0B, 0x03, 0x73, 0x00, 0x83, 0x00, 0x0C, 0x00, 0x0D,
    0x00, 0x08, 0x11, 0x1F, 0x88, 0x89, 0x00, 0x0E, 0xDC, 0xCC, 0x6E, 0xE6, 0xDD, 0xDD, 0xD9, 0x99,
    0xBB, 0xBB, 0x67, 0x63, 0x6E, 0x0E, 0xEC, 0xCC, 0xDD, 0xDC, 0x99, 0x9F, 0xBB, 0xB9, 0x33, 0x3E,
];

/// The bytes of an image where the boot logo is expected.
pub open spec fn logo_field(rom: Seq<u8>) -> Seq<u8>
    recommends
        rom.len() >= NINTENDO_LOGO_PTR + NINTENDO_LOGO_SIZE,
{
    rom.subrange(NINTENDO_LOGO_PTR as int, NINTENDO_LOGO_PTR + NINTENDO_LOGO_SIZE)
}

/// The bytes of the title field.
pub open spec fn title_field(rom: Seq<u8>) -> Seq<u8>
    recommends
        rom.len() >= TITLE_PTR + TITLE_SIZE,
{
    rom.subrange(TITLE_PTR as int, TITLE_PTR + TITLE_SIZE)
}

/// The bytes of the new licensee code.
pub open spec fn new_licensee_code_field(rom: Seq<u8>) -> Seq<u8>
    recommends
        rom.len() >= NEW_LICENSEE_CODE_PTR + NEW_LICENSEE_CODE_SIZE,
{
    rom.subrange(NEW_LICENSEE_CODE_PTR as int, NEW_LICENSEE_CODE_PTR + NEW_LICENSEE_CODE_SIZE)
}

/// The bytes that the header checksum covers: from the title through the ROM
/// version.
pub open spec fn checksummed_field(rom: Seq<u8>) -> Seq<u8>
    recommends
        rom.len() > ROM_VERSION_PTR,
{
    rom.subrange(TITLE_PTR as int, ROM_VERSION_PTR + 1)
}

} // verus!
