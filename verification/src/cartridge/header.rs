//! The header of a cartridge image and how it is read from the image's bytes.
use vstd::prelude::*;
use vstd::arithmetic::power2::{lemma2_to64, pow2};
use vstd::bits::lemma_usize_shl_is_mul;
use vstd::slice::slice_subrange;
use vstd::utf8::{
    decode_utf8, encode_utf8, encode_utf8_decode_utf8, encode_utf8_valid_utf8,
    is_ascii_chars_encode_utf8, valid_utf8,
};
use crate::cartridge::layout::{
    new_licensee_code_field, title_field, CARTRIDGE_TYPE_PTR, DESTINATION_CODE_PTR,
    GLOBAL_CHECKSUM_PTR, HEADER_CHECKSUM_PTR, HEADER_SIZE, NEW_LICENSEE_CODE_PTR,
    NEW_LICENSEE_CODE_SIZE, OLD_LICENSEE_CODE_PTR, RAM_SIZE_PTR, ROM_SIZE_PTR, ROM_VERSION_PTR,
    SGB_FLAG_PTR, TITLE_PTR, TITLE_SIZE,
};
use crate::cartridge::{Error, ErrorView};

verus! {

/// What the header of an image says of the cartridge.
#[derive(Debug)]
pub struct Header {
    pub title: String,
    pub new_licensee_code: String,
    pub sgb_flag: u8,
    pub cartridge_type: u8,
    pub rom_size: usize,
    pub ram_size: usize,
    pub destination_code: u8,
    pub old_licensee_code: u8,
    pub rom_version: u8,
    pub header_checksum: u8,
    pub global_checksum: u16,
}

/// A [`Header`] as a mathematical value: the texts as sequences of
/// characters, the sizes as natural numbers.
pub struct HeaderView {
    pub title: Seq<char>,
    pub new_licensee_code: Seq<char>,
    pub sgb_flag: u8,
    pub cartridge_type: u8,
    pub rom_size: nat,
    pub ram_size: nat,
    pub destination_code: u8,
    pub old_licensee_code: u8,
    pub rom_version: u8,
    pub header_checksum: u8,
    pub global_checksum: u16,
}

impl View for Header {
    type V = HeaderView;

    open spec fn view(&self) -> HeaderView {
        HeaderView {
            title: self.title@,
            new_licensee_code: self.new_licensee_code@,
            sgb_flag: self.sgb_flag,
            cartridge_type: self.cartridge_type,
            rom_size: self.rom_size as nat,
            ram_size: self.ram_size as nat,
            destination_code: self.destination_code,
            old_licensee_code: self.old_licensee_code,
            rom_version: self.rom_version,
            header_checksum: self.header_checksum,
            global_checksum: self.global_checksum,
        }
    }
}

/// The number of bytes of `field` before its first zero byte: all of them if
/// it holds none.
pub open spec fn text_len(field: Seq<u8>) -> nat
    decreases field.len(),
{
    if field.len() == 0 || field[0] == 0 {
        0
    } else {
        1 + text_len(field.drop_first())
    }
}

/// The bytes of a text field up to its terminator.
pub open spec fn text_bytes(field: Seq<u8>) -> Seq<u8> {
    field.take(text_len(field) as int)
}

/// The text that a field holds, or the failure to decode it.
pub open spec fn spec_from_ascii(field: Seq<u8>) -> Result<Seq<char>, ErrorView> {
    if valid_utf8(text_bytes(field)) {
        Ok(decode_utf8(text_bytes(field)))
    } else {
        Err(ErrorView::NoAsciiString)
    }
}

/// The size in bytes that a ROM size code stands for.
pub open spec fn spec_rom_size(value: u8) -> Result<nat, ErrorView> {
    if value <= 8 {
        Ok(32768 * pow2(value as nat))
    } else if value == 0x52 {
        Ok(1_153_434)
    } else if value == 0x53 {
        Ok(1_258_292)
    } else if value == 0x54 {
        Ok(1_572_864)
    } else {
        Err(ErrorView::UnknownRomSizeValue { value })
    }
}

/// The size in bytes that a RAM size code stands for.
pub open spec fn spec_ram_size(value: u8) -> Result<nat, ErrorView> {
    if value == 0 {
        Ok(0)
    } else if value == 2 {
        Ok(8192)
    } else if value == 3 {
        Ok(32768)
    } else if value == 4 {
        Ok(131072)
    } else if value == 5 {
        Ok(65536)
    } else {
        Err(ErrorView::UnknownRamSizeValue { value })
    }
}

/// The global checksum that an image declares: its high byte comes first.
pub open spec fn declared_global_checksum(rom: Seq<u8>) -> u16
    recommends
        rom.len() >= HEADER_SIZE,
{
    (rom[GLOBAL_CHECKSUM_PTR as int] * 256 + rom[GLOBAL_CHECKSUM_PTR + 1]) as u16
}

/// The header that an image holds, or the first reason why none can be read
/// from it: the image is too short, the title or the licensee code is no
/// text, the ROM size code is unknown, the RAM size code is unknown.
pub open spec fn spec_from_rom(rom: Seq<u8>) -> Result<HeaderView, ErrorView> {
    if rom.len() < HEADER_SIZE {
        Err(ErrorView::NoHeader)
    } else {
        match (
            spec_from_ascii(title_field(rom)),
            spec_from_ascii(new_licensee_code_field(rom)),
            spec_rom_size(rom[ROM_SIZE_PTR as int]),
            spec_ram_size(rom[RAM_SIZE_PTR as int]),
        ) {
            (Err(e), _, _, _) => Err(e),
            (_, Err(e), _, _) => Err(e),
            (_, _, Err(e), _) => Err(e),
            (_, _, _, Err(e)) => Err(e),
            (Ok(title), Ok(new_licensee_code), Ok(rom_size), Ok(ram_size)) => Ok(
                HeaderView {
                    title,
                    new_licensee_code,
                    sgb_flag: rom[SGB_FLAG_PTR as int],
                    cartridge_type: rom[CARTRIDGE_TYPE_PTR as int],
                    rom_size,
                    ram_size,
                    destination_code: rom[DESTINATION_CODE_PTR as int],
                    old_licensee_code: rom[OLD_LICENSEE_CODE_PTR as int],
                    rom_version: rom[ROM_VERSION_PTR as int],
                    header_checksum: rom[HEADER_CHECKSUM_PTR as int],
                    global_checksum: declared_global_checksum(rom),
                },
            ),
        }
    }
}

/// `text_len` is the position of the first zero byte: no byte before it is
/// zero, and it is the field's length or the position of a zero byte.
pub proof fn lemma_text_len(field: Seq<u8>)
    ensures
        text_len(field) <= field.len(),
        forall|i: int| 0 <= i < text_len(field) ==> field[i] != 0,
        text_len(field) < field.len() ==> field[text_len(field) as int] == 0,
    decreases field.len(),
{
    if field.len() != 0 && field[0] != 0 {
        let rest = field.drop_first();
        lemma_text_len(rest);
        assert forall|i: int| 0 <= i < text_len(field) implies field[i] != 0 by {
            if i > 0 {
                assert(field[i] == rest[i - 1]);
            }
        }
    }
}

/// A position with no zero byte before it, which ends the field or holds a
/// zero byte, is `text_len`.
pub proof fn lemma_text_len_unique(field: Seq<u8>, n: int)
    requires
        0 <= n <= field.len(),
        forall|i: int| 0 <= i < n ==> field[i] != 0,
        n < field.len() ==> field[n] == 0,
    ensures
        text_len(field) == n,
{
    lemma_text_len(field);
    let m = text_len(field) as int;
    if m < n {
        assert(field[m] == 0);
    } else if n < m {
        assert(field[n] != 0);
    }
}

/// A field whose text is ASCII holds that text, character for byte.
pub proof fn lemma_ascii_text(field: Seq<u8>)
    requires
        forall|i: int| 0 <= i < text_len(field) ==> field[i] < 0x80,
    ensures
        spec_from_ascii(field) == Ok::<Seq<char>, ErrorView>(
            Seq::new(text_len(field), |i: int| field[i] as char),
        ),
{
    lemma_text_len(field);
    let chars = Seq::new(text_len(field), |i: int| field[i] as char);
    is_ascii_chars_encode_utf8(chars);
    assert(encode_utf8(chars) =~= text_bytes(field));
    encode_utf8_valid_utf8(chars);
    encode_utf8_decode_utf8(chars);
}

impl Header {
    /// Reads the header from an image.
    pub fn from_rom(rom: &[u8]) -> (r: Result<Header, Error>)
        ensures
            match r {
                Ok(header) => spec_from_rom(rom@) == Ok::<HeaderView, ErrorView>(header@),
                Err(e) => spec_from_rom(rom@) == Err::<HeaderView, ErrorView>(e@),
            },
    {
        if rom.len() < HEADER_SIZE {
            return Err(Error::NoHeader);
        }
        let title = match Self::from_ascii(slice_subrange(rom, TITLE_PTR, TITLE_PTR + TITLE_SIZE)) {
            Ok(text) => text,
            Err(e) => {
                return Err(e);
            },
        };
        let new_licensee_code = match Self::from_ascii(
            slice_subrange(rom, NEW_LICENSEE_CODE_PTR, NEW_LICENSEE_CODE_PTR + NEW_LICENSEE_CODE_SIZE),
        ) {
            Ok(text) => text,
            Err(e) => {
                return Err(e);
            },
        };
        let rom_size = match Self::get_rom_size(rom[ROM_SIZE_PTR]) {
            Ok(size) => size,
            Err(e) => {
                return Err(e);
            },
        };
        let ram_size = match Self::get_ram_size(rom[RAM_SIZE_PTR]) {
            Ok(size) => size,
            Err(e) => {
                return Err(e);
            },
        };
        Ok(
            Header {
                title,
                new_licensee_code,
                sgb_flag: rom[SGB_FLAG_PTR],
                cartridge_type: rom[CARTRIDGE_TYPE_PTR],
                rom_size,
                ram_size,
                destination_code: rom[DESTINATION_CODE_PTR],
                old_licensee_code: rom[OLD_LICENSEE_CODE_PTR],
                rom_version: rom[ROM_VERSION_PTR],
                header_checksum: rom[HEADER_CHECKSUM_PTR],
                global_checksum: rom[GLOBAL_CHECKSUM_PTR] as u16 * 256 + rom[GLOBAL_CHECKSUM_PTR
                    + 1] as u16,
            },
        )
    }

    /// Decodes a text field: the bytes before the first zero byte, as UTF-8.
    pub fn from_ascii(buf: &[u8]) -> (r: Result<String, Error>)
        ensures
            match r {
                Ok(text) => spec_from_ascii(buf@) == Ok::<Seq<char>, ErrorView>(text@),
                Err(e) => spec_from_ascii(buf@) == Err::<Seq<char>, ErrorView>(e@),
            },
    {
        let mut chars: Vec<u8> = Vec::new();
        let mut i: usize = 0;
        while i < buf.len() && buf[i] != 0
            invariant
                i <= buf@.len(),
                chars@ == buf@.take(i as int),
                forall|j: int| 0 <= j < i ==> buf@[j] != 0,
            decreases buf@.len() - i,
        {
            chars.push(buf[i]);
            i += 1;
            assert(chars@ =~= buf@.take(i as int));
        }
        proof {
            lemma_text_len_unique(buf@, i as int);
        }
        match String::from_utf8(chars) {
            Ok(text) => Ok(text),
            Err(e) => Err(Error::NoAsciiString(e)),
        }
    }

    /// Decodes a ROM size code: 32 KiB doubled `value` times for the codes up
    /// to 8, and three sizes that fall between the powers of two.
    pub fn get_rom_size(value: u8) -> (r: Result<usize, Error>)
        ensures
            match r {
                Ok(size) => spec_rom_size(value) == Ok::<nat, ErrorView>(size as nat),
                Err(e) => spec_rom_size(value) == Err::<nat, ErrorView>(e@),
            },
    {
        match value {
            0..=8 => {
                proof {
                    lemma2_to64();
                    lemma_usize_shl_is_mul(1, value as usize);
                }
                Ok(32 * 1024 * (1 << value as usize))
            },
            0x52 => Ok(1_153_434),
            0x53 => Ok(1_258_292),
            0x54 => Ok(1_572_864),
            _ => Err(Error::UnknownRomSizeValue { value }),
        }
    }

    /// Decodes a RAM size code.
    pub fn get_ram_size(value: u8) -> (r: Result<usize, Error>)
        ensures
            match r {
                Ok(size) => spec_ram_size(value) == Ok::<nat, ErrorView>(size as nat),
                Err(e) => spec_ram_size(value) == Err::<nat, ErrorView>(e@),
            },
    {
        match value {
            0 => Ok(0),
            2 => Ok(8 * 1024),
            3 => Ok(32 * 1024),
            4 => Ok(128 * 1024),
            5 => Ok(64 * 1024),
            _ => Err(Error::UnknownRamSizeValue { value }),
        }
    }
}

} // verus!
