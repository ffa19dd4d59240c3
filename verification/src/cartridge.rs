//! A cartridge: the image as loaded, the header parsed from it, and the
//! battery RAM that the header calls for.
use vstd::prelude::*;
use std::string::FromUtf8Error;
use crate::cartridge::checksum::{
    global_checksum, header_checksum, header_checksum_upto, lemma_header_checksum_unfold,
    lemma_sum_bytes_take, sum_bytes,
};
use crate::cartridge::header::{spec_from_rom, Header, HeaderView};
use crate::cartridge::layout::{
    logo_field, GLOBAL_CHECKSUM_PTR, HEADER_SIZE, NINTENDO_LOGO, NINTENDO_LOGO_PTR,
    NINTENDO_LOGO_SIZE, ROM_VERSION_PTR, TITLE_PTR,
};

pub mod checksum;
pub mod header;
pub mod layout;

verus! {

/// `std::string::FromUtf8Error`, carried in [`Error::NoAsciiString`] as the
/// decoder returned it. The type is opaque here: nothing is claimed of what
/// a value of it holds.
#[verifier::external_type_specification]
#[verifier::external_body]
pub struct ExFromUtf8Error(FromUtf8Error);

/// `std::io::Error`, carried in [`Error::Io`] for callers that read an image
/// from storage. The type is opaque here: nothing is claimed of what a value
/// of it holds.
#[verifier::external_type_specification]
#[verifier::external_body]
pub struct ExIoError(std::io::Error);

/// Assumed of `String::from_utf8`, not proved: it succeeds exactly on
/// well-formed UTF-8, and the string it then returns holds the characters that
/// the bytes encode. Of the error it returns otherwise nothing is assumed.
pub assume_specification[ String::from_utf8 ](vec: Vec<u8>) -> (r: Result<String, FromUtf8Error>)
    ensures
        r is Ok <==> vstd::utf8::valid_utf8(vec@),
        r matches Ok(s) ==> s@ == vstd::utf8::decode_utf8(vec@),
;

/// Why an image was refused, or an access to a cartridge failed.
#[derive(Debug)]
#[allow(inconsistent_fields)]
pub enum Error {
    /// The image's length differs from the size its header declares.
    InconsistentRomSize { actual: usize, header: usize },
    /// The boot logo is not where it belongs.
    MissingNintentoLogo,
    /// The header checksum computed from the image differs from the declared one.
    InvalidHeaderChecksum { actual: u8, header: u8 },
    /// The global checksum computed from the image differs from the declared one.
    InvalidGlobalChecksum { actual: u16, header: u16 },
    /// A read beyond the end of ROM or RAM.
    ReadAccessViolation { addr: u16 },
    /// A write beyond the end of RAM.
    WriteAccessViolation { addr: u16 },
    /// The image is too short to hold a header.
    NoHeader,
    /// The ROM size code is none of the known ones.
    UnknownRomSizeValue { value: u8 },
    /// The RAM size code is none of the known ones.
    UnknownRamSizeValue { value: u8 },
    /// A text field of the header is not well-formed UTF-8.
    NoAsciiString(FromUtf8Error),
    /// The image could not be read from storage.
    Io(std::io::Error),
}

/// What an [`Error`] says, without the values of std that two of its variants
/// carry along.
#[allow(inconsistent_fields)]
pub enum ErrorView {
    InconsistentRomSize { actual: nat, header: nat },
    MissingNintentoLogo,
    InvalidHeaderChecksum { actual: u8, header: u8 },
    InvalidGlobalChecksum { actual: u16, header: u16 },
    ReadAccessViolation { addr: u16 },
    WriteAccessViolation { addr: u16 },
    NoHeader,
    UnknownRomSizeValue { value: u8 },
    UnknownRamSizeValue { value: u8 },
    NoAsciiString,
    Io,
}

impl View for Error {
    type V = ErrorView;

    open spec fn view(&self) -> ErrorView {
        match *self {
            Error::InconsistentRomSize { actual, header } => ErrorView::InconsistentRomSize {
                actual: actual as nat,
                header: header as nat,
            },
            Error::MissingNintentoLogo => ErrorView::MissingNintentoLogo,
            Error::InvalidHeaderChecksum { actual, header } => ErrorView::InvalidHeaderChecksum {
                actual,
                header,
            },
            Error::InvalidGlobalChecksum { actual, header } => ErrorView::InvalidGlobalChecksum {
                actual,
                header,
            },
            Error::ReadAccessViolation { addr } => ErrorView::ReadAccessViolation { addr },
            Error::WriteAccessViolation { addr } => ErrorView::WriteAccessViolation { addr },
            Error::NoHeader => ErrorView::NoHeader,
            Error::UnknownRomSizeValue { value } => ErrorView::UnknownRomSizeValue { value },
            Error::UnknownRamSizeValue { value } => ErrorView::UnknownRamSizeValue { value },
            Error::NoAsciiString(_) => ErrorView::NoAsciiString,
            Error::Io(_) => ErrorView::Io,
        }
    }
}

impl From<std::io::Error> for Error {
    fn from(value: std::io::Error) -> (r: Self) {
        Error::Io(value)
    }
}

impl vstd::std_specs::convert::FromSpecImpl<std::io::Error> for Error {
    open spec fn obeys_from_spec() -> bool {
        true
    }

    open spec fn from_spec(value: std::io::Error) -> Self {
        Error::Io(value)
    }
}

impl From<FromUtf8Error> for Error {
    fn from(value: FromUtf8Error) -> (r: Self) {
        Error::NoAsciiString(value)
    }
}

impl vstd::std_specs::convert::FromSpecImpl<FromUtf8Error> for Error {
    open spec fn obeys_from_spec() -> bool {
        true
    }

    open spec fn from_spec(value: FromUtf8Error) -> Self {
        Error::NoAsciiString(value)
    }
}

/// The view of a result that fails with an [`Error`].
pub open spec fn result_view<T>(r: Result<T, Error>) -> Result<T, ErrorView> {
    match r {
        Ok(value) => Ok(value),
        Err(e) => Err(e@),
    }
}

/// Which of the four checks an image has to pass to be loaded.
pub struct ValidationSettings {
    pub check_rom_size: bool,
    pub check_nintento_logo: bool,
    pub check_header_checksum: bool,
    pub check_global_checksum: bool,
}

impl ValidationSettings {
    /// Every check but that of the global checksum, which many sound images
    /// leave unset.
    pub fn default() -> (r: Self)
        ensures
            r == (ValidationSettings {
                check_rom_size: true,
                check_nintento_logo: true,
                check_header_checksum: true,
                check_global_checksum: false,
            }),
    {
        Self {
            check_rom_size: true,
            check_nintento_logo: true,
            check_header_checksum: true,
            check_global_checksum: false,
        }
    }
}

/// The image is as long as its header declares.
pub open spec fn rom_size_matches(rom: Seq<u8>, header: HeaderView) -> bool {
    rom.len() == header.rom_size
}

/// The image holds the boot logo where it belongs.
pub open spec fn nintendo_logo_matches(rom: Seq<u8>) -> bool
    recommends
        rom.len() >= HEADER_SIZE,
{
    logo_field(rom) == NINTENDO_LOGO@
}

/// The header declares the header checksum that the image has.
pub open spec fn header_checksum_matches(rom: Seq<u8>, header: HeaderView) -> bool
    recommends
        rom.len() >= HEADER_SIZE,
{
    header_checksum(rom) == header.header_checksum
}

/// The header declares the global checksum that the image has.
pub open spec fn global_checksum_matches(rom: Seq<u8>, header: HeaderView) -> bool
    recommends
        rom.len() >= HEADER_SIZE,
{
    global_checksum(rom) == header.global_checksum
}

/// The outcome of validating an image against a header: the failure of the
/// first check that is enabled and not passed, in the order size, logo,
/// header checksum, global checksum.
pub open spec fn spec_validate_rom(
    rom: Seq<u8>,
    header: HeaderView,
    settings: ValidationSettings,
) -> Result<(), ErrorView>
    recommends
        rom.len() >= HEADER_SIZE,
{
    if settings.check_rom_size && !rom_size_matches(rom, header) {
        Err(ErrorView::InconsistentRomSize { actual: rom.len(), header: header.rom_size })
    } else if settings.check_nintento_logo && !nintendo_logo_matches(rom) {
        Err(ErrorView::MissingNintentoLogo)
    } else if settings.check_header_checksum && !header_checksum_matches(rom, header) {
        Err(
            ErrorView::InvalidHeaderChecksum {
                actual: header_checksum(rom),
                header: header.header_checksum,
            },
        )
    } else if settings.check_global_checksum && !global_checksum_matches(rom, header) {
        Err(
            ErrorView::InvalidGlobalChecksum {
                actual: global_checksum(rom),
                header: header.global_checksum,
            },
        )
    } else {
        Ok(())
    }
}

/// A cartridge as a mathematical value.
pub struct CartridgeView {
    /// The image as loaded.
    pub rom: Seq<u8>,
    /// The battery RAM.
    pub ram: Seq<u8>,
    /// The header parsed from the image.
    pub header: HeaderView,
}

impl CartridgeView {
    /// The RAM is as large as the header declares.
    pub open spec fn wf(self) -> bool {
        self.ram.len() == self.header.ram_size
    }

    /// The outcome of reading the ROM at `addr`.
    pub open spec fn read_rom(self, addr: u16) -> Result<u8, ErrorView> {
        if addr < self.rom.len() {
            Ok(self.rom[addr as int])
        } else {
            Err(ErrorView::ReadAccessViolation { addr })
        }
    }

    /// The outcome of reading the RAM at `addr`.
    pub open spec fn read_ram(self, addr: u16) -> Result<u8, ErrorView> {
        if addr < self.ram.len() {
            Ok(self.ram[addr as int])
        } else {
            Err(ErrorView::ReadAccessViolation { addr })
        }
    }

    /// The outcome of writing the RAM at `addr`.
    pub open spec fn write_ram_result(self, addr: u16) -> Result<(), ErrorView> {
        if addr < self.ram.len() {
            Ok(())
        } else {
            Err(ErrorView::WriteAccessViolation { addr })
        }
    }

    /// The cartridge after `value` was written to the RAM at `addr`: the byte
    /// is stored if `addr` lies in the RAM, and nothing changes otherwise.
    pub open spec fn write_ram(self, addr: u16, value: u8) -> CartridgeView {
        if addr < self.ram.len() {
            CartridgeView { ram: self.ram.update(addr as int, value), ..self }
        } else {
            self
        }
    }
}

/// The outcome of loading an image: the failure to read its header, else the
/// failure to validate it, else the cartridge with its RAM zeroed.
pub open spec fn spec_from_rom_data(rom: Seq<u8>, settings: ValidationSettings) -> Result<
    CartridgeView,
    ErrorView,
> {
    match spec_from_rom(rom) {
        Err(e) => Err(e),
        Ok(header) => match spec_validate_rom(rom, header, settings) {
            Err(e) => Err(e),
            Ok(()) => Ok(
                CartridgeView { rom, ram: Seq::new(header.ram_size, |i: int| 0u8), header },
            ),
        },
    }
}

/// A loaded cartridge. It owns the image and its RAM. The RAM has the size
/// that the header declares from the moment the cartridge is made: every
/// method says so of the cartridge it is called on, as `wf` of its view.
#[derive(Debug)]
pub struct Cartridge {
    rom: Vec<u8>,
    ram: Vec<u8>,
    header: Header,
}

impl View for Cartridge {
    type V = CartridgeView;

    closed spec fn view(&self) -> CartridgeView {
        CartridgeView { rom: self.rom@, ram: self.ram@, header: self.header@ }
    }
}

impl Cartridge {
    #[verifier::type_invariant]
    spec fn ram_has_declared_size(&self) -> bool {
        self.ram@.len() == self.header.ram_size
    }

    /// Loads an image: reads its header, validates the image against it as
    /// `settings` ask, and allocates the RAM, all zero.
    pub fn from_rom_data(rom: Vec<u8>, settings: &ValidationSettings) -> (r: Result<Self, Error>)
        ensures
            match r {
                Ok(cart) => spec_from_rom_data(rom@, *settings) == Ok::<CartridgeView, ErrorView>(
                    cart@,
                ),
                Err(e) => spec_from_rom_data(rom@, *settings) == Err::<CartridgeView, ErrorView>(
                    e@,
                ),
            },
    {
        let header = match Header::from_rom(rom.as_slice()) {
            Ok(header) => header,
            Err(e) => {
                return Err(e);
            },
        };
        match Self::validate_rom(rom.as_slice(), &header, settings) {
            Ok(()) => {},
            Err(e) => {
                return Err(e);
            },
        }
        let ram = vec![0u8; header.ram_size];
        assert(ram@ =~= Seq::new(header@.ram_size, |i: int| 0u8));
        Ok(Self { rom, ram, header })
    }

    /// Validates an image against a header: the checks that `settings` enable
    /// are made in the order size, logo, header checksum, global checksum, and
    /// the first that is not passed gives the error.
    pub fn validate_rom(rom: &[u8], header: &Header, settings: &ValidationSettings) -> (r: Result<
        (),
        Error,
    >)
        requires
            rom@.len() >= HEADER_SIZE,
        ensures
            result_view(r) == spec_validate_rom(rom@, header@, *settings),
    {
        if settings.check_rom_size && rom.len() != header.rom_size {
            return Err(Error::InconsistentRomSize { actual: rom.len(), header: header.rom_size });
        }
        if settings.check_nintento_logo && !Self::has_nintendo_logo(rom) {
            return Err(Error::MissingNintentoLogo);
        }
        let header_checksum = Self::compute_header_checksum(rom);
        if settings.check_header_checksum && header_checksum != header.header_checksum {
            return Err(
                Error::InvalidHeaderChecksum {
                    actual: header_checksum,
                    header: header.header_checksum,
                },
            );
        }
        let global_checksum = Self::compute_global_checksum(rom);
        if settings.check_global_checksum && global_checksum != header.global_checksum {
            return Err(
                Error::InvalidGlobalChecksum {
                    actual: global_checksum,
                    header: header.global_checksum,
                },
            );
        }
        Ok(())
    }

    /// Compares the logo field of an image with the boot logo, byte by byte.
    fn has_nintendo_logo(rom: &[u8]) -> (r: bool)
        requires
            rom@.len() >= HEADER_SIZE,
        ensures
            r == nintendo_logo_matches(rom@),
    {
        let mut i: usize = 0;
        while i < NINTENDO_LOGO_SIZE
            invariant
                i <= NINTENDO_LOGO_SIZE,
                rom@.len() >= HEADER_SIZE,
                forall|j: int| 0 <= j < i ==> rom@[NINTENDO_LOGO_PTR + j] == NINTENDO_LOGO@[j],
            decreases NINTENDO_LOGO_SIZE - i,
        {
            if rom[NINTENDO_LOGO_PTR + i] != NINTENDO_LOGO[i] {
                assert(logo_field(rom@)[i as int] != NINTENDO_LOGO@[i as int]);
                return false;
            }
            i += 1;
        }
        assert(logo_field(rom@) =~= NINTENDO_LOGO@);
        true
    }

    /// Computes the header checksum of an image: from zero, each byte from the
    /// title through the ROM version, and one more, is subtracted with 8-bit
    /// wraparound.
    pub fn compute_header_checksum(rom: &[u8]) -> (checksum: u8)
        requires
            rom@.len() > ROM_VERSION_PTR,
        ensures
            checksum == header_checksum(rom@),
    {
        let mut checksum: u8 = 0;
        let mut addr: usize = TITLE_PTR;
        proof {
            lemma_header_checksum_unfold(rom@, TITLE_PTR as int);
        }
        while addr <= ROM_VERSION_PTR
            invariant
                TITLE_PTR <= addr <= ROM_VERSION_PTR + 1,
                rom@.len() > ROM_VERSION_PTR,
                checksum == header_checksum_upto(rom@, addr as int),
            decreases ROM_VERSION_PTR + 1 - addr,
        {
            proof {
                lemma_header_checksum_unfold(rom@, addr as int);
            }
            checksum = checksum.wrapping_sub(rom[addr]).wrapping_sub(1);
            addr += 1;
        }
        checksum
    }

    /// Computes the global checksum of an image: the sum of all its bytes with
    /// 16-bit wraparound, less the two bytes that declare the checksum.
    pub fn compute_global_checksum(rom: &[u8]) -> (checksum: u16)
        requires
            rom@.len() >= HEADER_SIZE,
        ensures
            checksum == global_checksum(rom@),
    {
        let mut checksum: u16 = 0;
        let mut i: usize = 0;
        while i < rom.len()
            invariant
                i <= rom@.len(),
                checksum == sum_bytes(rom@.take(i as int)) % 0x1_0000,
            decreases rom@.len() - i,
        {
            proof {
                lemma_sum_bytes_take(rom@, i as int);
            }
            checksum = checksum.wrapping_add(rom[i] as u16);
            i += 1;
        }
        assert(rom@.take(rom@.len() as int) =~= rom@);
        checksum.wrapping_sub(rom[GLOBAL_CHECKSUM_PTR] as u16).wrapping_sub(
            rom[GLOBAL_CHECKSUM_PTR + 1] as u16,
        )
    }

    /// The title that the header declares.
    pub fn get_title(&self) -> (title: &str)
        ensures
            title@ == self@.header.title,
            self@.wf(),
    {
        proof {
            use_type_invariant(self);
        }
        self.header.title.as_str()
    }

    /// Reads the byte at offset `addr` of the ROM.
    pub fn read_rom(&self, addr: u16) -> (r: Result<u8, Error>)
        ensures
            result_view(r) == self@.read_rom(addr),
            self@.wf(),
    {
        proof {
            use_type_invariant(self);
        }
        Self::read_from(self.rom.as_slice(), addr)
    }

    /// Reads the byte at offset `addr` of the RAM.
    pub fn read_ram(&self, addr: u16) -> (r: Result<u8, Error>)
        ensures
            result_view(r) == self@.read_ram(addr),
            self@.wf(),
    {
        proof {
            use_type_invariant(self);
        }
        Self::read_from(self.ram.as_slice(), addr)
    }

    fn read_from(buf: &[u8], addr: u16) -> (r: Result<u8, Error>)
        ensures
            addr < buf@.len() ==> r == Ok::<u8, Error>(buf@[addr as int]),
            addr >= buf@.len() ==> r == Err::<u8, Error>(Error::ReadAccessViolation { addr }),
    {
        if (addr as usize) < buf.len() {
            Ok(buf[addr as usize])
        } else {
            Err(Error::ReadAccessViolation { addr })
        }
    }

    /// Stores `value` at offset `addr` of the RAM. A write beyond the end of
    /// the RAM fails and changes nothing.
    pub fn write_ram(&mut self, addr: u16, value: u8) -> (r: Result<(), Error>)
        ensures
            result_view(r) == old(self)@.write_ram_result(addr),
            final(self)@ == old(self)@.write_ram(addr, value),
            old(self)@.wf(),
            final(self)@.wf(),
    {
        proof {
            use_type_invariant(&*self);
        }
        Self::write_to(&mut self.ram, addr, value)
    }

    fn write_to(buf: &mut Vec<u8>, addr: u16, value: u8) -> (r: Result<(), Error>)
        ensures
            addr < old(buf)@.len() ==> r == Ok::<(), Error>(()) && final(buf)@ == old(buf)@.update(
                addr as int,
                value,
            ),
            addr >= old(buf)@.len() ==> r == Err::<(), Error>(
                Error::WriteAccessViolation { addr },
            ) && final(buf)@ == old(buf)@,
        no_unwind
    {
        if (addr as usize) < buf.len() {
            buf[addr as usize] = value;
            Ok(())
        } else {
            Err(Error::WriteAccessViolation { addr })
        }
    }
}

/// A read of the ROM succeeds at the last offset of the image and fails just
/// behind it, whatever the image's length.
pub proof fn lemma_read_rom_bounds(cart: CartridgeView)
    ensures
        0 < cart.rom.len() <= 0x1_0000 ==> cart.read_rom((cart.rom.len() - 1) as u16) == Ok::<
            u8,
            ErrorView,
        >(cart.rom.last()),
        cart.rom.len() <= 0xFFFF ==> cart.read_rom(cart.rom.len() as u16) == Err::<u8, ErrorView>(
            ErrorView::ReadAccessViolation { addr: cart.rom.len() as u16 },
        ),
        forall|addr: u16| cart.read_rom(addr) is Ok <==> addr < cart.rom.len(),
{
}

/// A read of the RAM succeeds at the last offset of the RAM and fails just
/// behind it, whatever the RAM's length.
pub proof fn lemma_read_ram_bounds(cart: CartridgeView)
    ensures
        0 < cart.ram.len() <= 0x1_0000 ==> cart.read_ram((cart.ram.len() - 1) as u16) == Ok::<
            u8,
            ErrorView,
        >(cart.ram.last()),
        cart.ram.len() <= 0xFFFF ==> cart.read_ram(cart.ram.len() as u16) == Err::<u8, ErrorView>(
            ErrorView::ReadAccessViolation { addr: cart.ram.len() as u16 },
        ),
        forall|addr: u16| cart.read_ram(addr) is Ok <==> addr < cart.ram.len(),
{
}

/// A byte written to the RAM is the byte read back from the same offset, and
/// the write is seen nowhere else: every other offset of the RAM reads as
/// before, and so does all of the ROM.
pub proof fn lemma_write_then_read(cart: CartridgeView, addr: u16, value: u8)
    requires
        addr < cart.ram.len(),
    ensures
        cart.write_ram_result(addr) is Ok,
        cart.write_ram(addr, value).read_ram(addr) == Ok::<u8, ErrorView>(value),
        forall|other: u16|
            other != addr ==> cart.write_ram(addr, value).read_ram(other) == cart.read_ram(other),
        forall|other: u16| cart.write_ram(addr, value).read_rom(other) == cart.read_rom(other),
{
}

/// No write changes the ROM, the header or the size of the RAM, and a write
/// that fails changes nothing at all.
pub proof fn lemma_write_ram_preserves(cart: CartridgeView, addr: u16, value: u8)
    ensures
        cart.write_ram(addr, value).rom == cart.rom,
        cart.write_ram(addr, value).header == cart.header,
        cart.write_ram(addr, value).ram.len() == cart.ram.len(),
        cart.wf() ==> cart.write_ram(addr, value).wf(),
        cart.write_ram_result(addr) is Err ==> cart.write_ram(addr, value) == cart,
{
}

/// An image too short to hold a header is refused for the want of one,
/// whatever checks are enabled.
pub proof fn lemma_short_image_has_no_header(rom: Seq<u8>, settings: ValidationSettings)
    requires
        rom.len() < HEADER_SIZE,
    ensures
        spec_from_rom_data(rom, settings) == Err::<CartridgeView, ErrorView>(ErrorView::NoHeader),
{
}

/// Validation passes exactly when every enabled check is passed: a check
/// that is disabled is skipped, whether the image would pass it or not.
pub proof fn lemma_disabled_checks_are_skipped(
    rom: Seq<u8>,
    header: HeaderView,
    settings: ValidationSettings,
)
    ensures
        spec_validate_rom(rom, header, settings) is Ok <==> {
            &&& settings.check_rom_size ==> rom_size_matches(rom, header)
            &&& settings.check_nintento_logo ==> nintendo_logo_matches(rom)
            &&& settings.check_header_checksum ==> header_checksum_matches(rom, header)
            &&& settings.check_global_checksum ==> global_checksum_matches(rom, header)
        },
{
}

/// An image loads exactly when it holds a header and passes every enabled
/// check against it. The cartridge then holds the image and its header, and
/// RAM of the declared size, all zero.
pub proof fn lemma_loads_iff_enabled_checks_pass(rom: Seq<u8>, settings: ValidationSettings)
    ensures
        spec_from_rom_data(rom, settings) is Ok <==> {
            &&& spec_from_rom(rom) matches Ok(header)
            &&& settings.check_rom_size ==> rom_size_matches(rom, header)
            &&& settings.check_nintento_logo ==> nintendo_logo_matches(rom)
            &&& settings.check_header_checksum ==> header_checksum_matches(rom, header)
            &&& settings.check_global_checksum ==> global_checksum_matches(rom, header)
        },
        spec_from_rom_data(rom, settings) matches Ok(cart) ==> {
            &&& cart.wf()
            &&& cart.rom == rom
            &&& spec_from_rom(rom) == Ok::<HeaderView, ErrorView>(cart.header)
            &&& forall|addr: u16| addr < cart.ram.len() ==> cart.read_ram(addr) == Ok::<
                u8,
                ErrorView,
            >(0u8)
        },
{
}

/// An image loads with a check disabled once it passes the other checks
/// that are enabled: of the disabled check nothing is asked, so an image that
/// is refused for, say, its size alone loads when the size check is off.
pub proof fn lemma_disabled_check_lets_image_load(rom: Seq<u8>, settings: ValidationSettings)
    requires
        spec_from_rom(rom) is Ok,
    ensures
        ({
            let header = spec_from_rom(rom)->Ok_0;
            let size = settings.check_rom_size ==> rom_size_matches(rom, header);
            let logo = settings.check_nintento_logo ==> nintendo_logo_matches(rom);
            let header_sum = settings.check_header_checksum ==> header_checksum_matches(
                rom,
                header,
            );
            let global_sum = settings.check_global_checksum ==> global_checksum_matches(
                rom,
                header,
            );
            &&& logo && header_sum && global_sum ==> spec_from_rom_data(
                rom,
                ValidationSettings { check_rom_size: false, ..settings },
            ) is Ok
            &&& size && header_sum && global_sum ==> spec_from_rom_data(
                rom,
                ValidationSettings { check_nintento_logo: false, ..settings },
            ) is Ok
            &&& size && logo && global_sum ==> spec_from_rom_data(
                rom,
                ValidationSettings { check_header_checksum: false, ..settings },
            ) is Ok
            &&& size && logo && header_sum ==> spec_from_rom_data(
                rom,
                ValidationSettings { check_global_checksum: false, ..settings },
            ) is Ok
        }),
{
}

} // verus!
