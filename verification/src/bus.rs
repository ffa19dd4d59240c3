//! The bus: it sends each 16-bit address to the part of the cartridge that
//! is mapped there.
use vstd::prelude::*;
use crate::cartridge;
use crate::cartridge::{Cartridge, CartridgeView};

verus! {

/// First address of the cartridge ROM window.
pub const CART_ROM_START: u16 = 0x0000;

/// First address behind the cartridge ROM window.
pub const CART_ROM_END: u16 = 0x8000;

/// First address of the cartridge RAM window.
pub const CART_RAM_START: u16 = 0xA000;

/// First address behind the cartridge RAM window. The window is the whole of
/// `0xA000..=0xBFFF`: its last address, `0xBFFF`, is mapped.
pub const CART_RAM_END: u16 = 0xC000;

/// Why an access through the bus failed.
#[derive(Debug)]
pub enum Error {
    /// Nothing is mapped at the address, or nothing that can be written.
    UnmappedAddress { addr: u16 },
    /// The cartridge refused the access.
    Cart(cartridge::Error),
}

/// What an [`Error`] says, with the cartridge's error by its view.
pub enum ErrorView {
    UnmappedAddress { addr: u16 },
    Cart(cartridge::ErrorView),
}

impl View for Error {
    type V = ErrorView;

    open spec fn view(&self) -> ErrorView {
        match *self {
            Error::UnmappedAddress { addr } => ErrorView::UnmappedAddress { addr },
            Error::Cart(e) => ErrorView::Cart(e@),
        }
    }
}

impl From<cartridge::Error> for Error {
    fn from(value: cartridge::Error) -> (r: Self) {
        Error::Cart(value)
    }
}

impl vstd::std_specs::convert::FromSpecImpl<cartridge::Error> for Error {
    open spec fn obeys_from_spec() -> bool {
        true
    }

    open spec fn from_spec(value: cartridge::Error) -> Self {
        Error::Cart(value)
    }
}

/// The view of a result that fails with an [`Error`].
pub open spec fn result_view<T>(r: Result<T, Error>) -> Result<T, ErrorView> {
    match r {
        Ok(value) => Ok(value),
        Err(e) => Err(e@),
    }
}

/// The outcome of an access to the cartridge, as the bus hands it on.
pub open spec fn from_cart<T>(r: Result<T, cartridge::ErrorView>) -> Result<T, ErrorView> {
    match r {
        Ok(value) => Ok(value),
        Err(e) => Err(ErrorView::Cart(e)),
    }
}

/// What is mapped at an address.
pub enum Region {
    /// The cartridge ROM, at the given offset.
    Rom { offset: u16 },
    /// The cartridge RAM, at the given offset.
    Ram { offset: u16 },
    /// Nothing.
    Unmapped,
}

/// The partition of the address space.
pub open spec fn region_of(addr: u16) -> Region {
    if CART_ROM_START <= addr < CART_ROM_END {
        Region::Rom { offset: (addr - CART_ROM_START) as u16 }
    } else if CART_RAM_START <= addr < CART_RAM_END {
        Region::Ram { offset: (addr - CART_RAM_START) as u16 }
    } else {
        Region::Unmapped
    }
}

/// The outcome of reading `addr` through a bus on `cart`.
pub open spec fn spec_read(cart: CartridgeView, addr: u16) -> Result<u8, ErrorView> {
    match region_of(addr) {
        Region::Rom { offset } => from_cart(cart.read_rom(offset)),
        Region::Ram { offset } => from_cart(cart.read_ram(offset)),
        Region::Unmapped => Err(ErrorView::UnmappedAddress { addr }),
    }
}

/// The outcome of writing `addr` through a bus on `cart`: only the RAM can
/// be written.
pub open spec fn spec_write_result(cart: CartridgeView, addr: u16) -> Result<(), ErrorView> {
    match region_of(addr) {
        Region::Ram { offset } => from_cart(cart.write_ram_result(offset)),
        _ => Err(ErrorView::UnmappedAddress { addr }),
    }
}

/// The cartridge after `value` was written to `addr` through a bus on it.
pub open spec fn spec_write(cart: CartridgeView, addr: u16, value: u8) -> CartridgeView {
    match region_of(addr) {
        Region::Ram { offset } => cart.write_ram(offset, value),
        _ => cart,
    }
}

/// The bus. It borrows the cartridge for as long as it is used and holds
/// nothing else.
pub struct Bus<'a> {
    pub cart: &'a mut Cartridge,
}

impl<'a> View for Bus<'a> {
    type V = CartridgeView;

    /// The bus is its cartridge, as it currently stands.
    open spec fn view(&self) -> CartridgeView {
        self.cart@
    }
}

impl<'a> Bus<'a> {
    /// Reads the byte that is mapped at `addr`.
    pub fn read(&self, addr: u16) -> (r: Result<u8, Error>)
        ensures
            result_view(r) == spec_read(self@, addr),
    {
        match addr {
            CART_ROM_START..CART_ROM_END => match self.cart.read_rom(addr - CART_ROM_START) {
                Ok(value) => Ok(value),
                Err(e) => Err(Error::from(e)),
            },
            CART_RAM_START..CART_RAM_END => match self.cart.read_ram(addr - CART_RAM_START) {
                Ok(value) => Ok(value),
                Err(e) => Err(Error::from(e)),
            },
            _ => Err(Error::UnmappedAddress { addr }),
        }
    }

    /// Stores `value` at `addr`, if RAM is mapped there. The bus goes on
    /// borrowing the same cartridge.
    pub fn write(&mut self, addr: u16, value: u8) -> (r: Result<(), Error>)
        ensures
            result_view(r) == spec_write_result(old(self)@, addr),
            final(self)@ == spec_write(old(self)@, addr, value),
            *final(final(self).cart) == *final(old(self).cart),
    {
        match addr {
            CART_RAM_START..CART_RAM_END => match self.cart.write_ram(
                addr - CART_RAM_START,
                value,
            ) {
                Ok(()) => Ok(()),
                Err(e) => Err(Error::from(e)),
            },
            _ => Err(Error::UnmappedAddress { addr }),
        }
    }
}

/// A byte written through the bus is the byte read back from the same
/// address.
pub proof fn lemma_write_then_read(cart: CartridgeView, addr: u16, value: u8)
    requires
        spec_write_result(cart, addr) is Ok,
    ensures
        spec_read(spec_write(cart, addr, value), addr) == Ok::<u8, ErrorView>(value),
{
}

/// The bus writes to the RAM window alone. A write to any other address is
/// refused as unmapped and changes nothing; no write at all changes the ROM
/// or the header.
pub proof fn lemma_write_reaches_ram_only(cart: CartridgeView, addr: u16, value: u8)
    ensures
        !(CART_RAM_START <= addr < CART_RAM_END) ==> {
            &&& spec_write_result(cart, addr) == Err::<(), ErrorView>(
                ErrorView::UnmappedAddress { addr },
            )
            &&& spec_write(cart, addr, value) == cart
        },
        spec_write(cart, addr, value).rom == cart.rom,
        spec_write(cart, addr, value).header == cart.header,
        forall|other: u16|
            CART_ROM_START <= other < CART_ROM_END ==> spec_read(
                spec_write(cart, addr, value),
                other,
            ) == spec_read(cart, other),
{
}

} // verus!
