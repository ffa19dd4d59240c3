use boii::bus::{Bus, Error};
use boii::cartridge;
use boii::cartridge::layout::{NINTENDO_LOGO, NINTENDO_LOGO_PTR};
use boii::cartridge::{Cartridge, ValidationSettings};

/// A sound 32 KiB image with the RAM size code given; no check but that of
/// the logo is asked of it.
fn cartridge_with_ram(code: u8) -> Cartridge {
    let mut rom = vec![0u8; 0x8000];
    rom[NINTENDO_LOGO_PTR..NINTENDO_LOGO_PTR + 48].copy_from_slice(&NINTENDO_LOGO);
    rom[0x0134..0x0138].copy_from_slice(b"TEST");
    rom[0x0149] = code;
    rom[0x0000] = 0x11;
    rom[0x7FFF] = 0x22;
    let settings = ValidationSettings {
        check_rom_size: true,
        check_nintento_logo: true,
        check_header_checksum: false,
        check_global_checksum: false,
    };
    Cartridge::from_rom_data(rom, &settings).unwrap()
}

#[test]
fn the_rom_window_maps_onto_the_rom() {
    let mut cart = cartridge_with_ram(2);
    let bus = Bus { cart: &mut cart };

    assert_eq!(0x11, bus.read(0x0000).unwrap());
    assert_eq!(0xCE, bus.read(0x0104).unwrap());
    assert_eq!(b'T', bus.read(0x0134).unwrap());
    assert_eq!(0x22, bus.read(0x7FFF).unwrap());
}

#[test]
fn nothing_is_mapped_between_rom_and_ram() {
    let mut cart = cartridge_with_ram(2);
    let bus = Bus { cart: &mut cart };

    assert!(matches!(bus.read(0x8000), Err(Error::UnmappedAddress { addr: 0x8000 })));
    assert!(matches!(bus.read(0x9000), Err(Error::UnmappedAddress { addr: 0x9000 })));
    assert!(matches!(bus.read(0x9FFF), Err(Error::UnmappedAddress { addr: 0x9FFF })));
}

#[test]
fn the_ram_window_maps_onto_the_ram() {
    let mut cart = cartridge_with_ram(2);
    assert!(cart.write_ram(0x0000, 0x33).is_ok());
    assert!(cart.write_ram(0x0001, 0x44).is_ok());
    assert!(cart.write_ram(0x1FFF, 0x55).is_ok());
    let bus = Bus { cart: &mut cart };

    assert_eq!(0x33, bus.read(0xA000).unwrap());
    assert_eq!(0x44, bus.read(0xA001).unwrap());
    assert_eq!(0x55, bus.read(0xBFFF).unwrap());
}

#[test]
fn nothing_is_mapped_behind_the_ram_window() {
    let mut cart = cartridge_with_ram(2);
    let mut bus = Bus { cart: &mut cart };

    assert!(matches!(bus.read(0xC000), Err(Error::UnmappedAddress { addr: 0xC000 })));
    assert!(matches!(bus.read(0xFFFF), Err(Error::UnmappedAddress { addr: 0xFFFF })));
    assert!(matches!(bus.write(0xC000, 1), Err(Error::UnmappedAddress { addr: 0xC000 })));
    assert!(matches!(bus.write(0xFFFF, 1), Err(Error::UnmappedAddress { addr: 0xFFFF })));
}

#[test]
fn a_byte_written_through_the_bus_is_read_back() {
    let mut cart = cartridge_with_ram(2);
    let mut bus = Bus { cart: &mut cart };

    assert!(bus.write(0xA000, 0x01).is_ok());
    assert!(bus.write(0xA123, 0x5A).is_ok());
    assert!(bus.write(0xBFFF, 0xFF).is_ok());

    assert_eq!(0x01, bus.read(0xA000).unwrap());
    assert_eq!(0x5A, bus.read(0xA123).unwrap());
    assert_eq!(0xFF, bus.read(0xBFFF).unwrap());
    assert_eq!(0x00, bus.read(0xA124).unwrap());
}

#[test]
fn a_write_through_the_bus_reaches_the_cartridge() {
    let mut cart = cartridge_with_ram(2);
    {
        let mut bus = Bus { cart: &mut cart };
        assert!(bus.write(0xA010, 0x77).is_ok());
    }

    assert_eq!(0x77, cart.read_ram(0x0010).unwrap());
    assert_eq!(0x00, cart.read_ram(0x0011).unwrap());
    assert_eq!(0x11, cart.read_rom(0x0000).unwrap());
}

#[test]
fn the_rom_cannot_be_written() {
    let mut cart = cartridge_with_ram(2);
    let mut bus = Bus { cart: &mut cart };

    assert!(matches!(bus.write(0x0000, 0xEE), Err(Error::UnmappedAddress { addr: 0x0000 })));
    assert!(matches!(bus.write(0x7FFF, 0xEE), Err(Error::UnmappedAddress { addr: 0x7FFF })));
    assert!(matches!(bus.write(0x8000, 0xEE), Err(Error::UnmappedAddress { addr: 0x8000 })));
    assert!(matches!(bus.write(0x9FFF, 0xEE), Err(Error::UnmappedAddress { addr: 0x9FFF })));

    assert_eq!(0x11, bus.read(0x0000).unwrap());
    assert_eq!(0x22, bus.read(0x7FFF).unwrap());
}

#[test]
fn the_cartridge_s_refusal_is_handed_on() {
    let mut cart = cartridge_with_ram(0);
    let mut bus = Bus { cart: &mut cart };

    assert!(matches!(
        bus.read(0xA000),
        Err(Error::Cart(cartridge::Error::ReadAccessViolation { addr: 0 }))
    ));
    assert!(matches!(
        bus.read(0xA005),
        Err(Error::Cart(cartridge::Error::ReadAccessViolation { addr: 5 }))
    ));
    assert!(matches!(
        bus.write(0xBFFF, 1),
        Err(Error::Cart(cartridge::Error::WriteAccessViolation { addr: 0x1FFF }))
    ));
}

#[test]
fn a_short_rom_is_refused_by_the_cartridge_not_the_bus() {
    let mut rom = vec![0u8; 0x0200];
    rom[0x01FF] = 0x66;
    let settings = ValidationSettings {
        check_rom_size: false,
        check_nintento_logo: false,
        check_header_checksum: false,
        check_global_checksum: false,
    };
    let mut cart = Cartridge::from_rom_data(rom, &settings).unwrap();
    let bus = Bus { cart: &mut cart };

    assert_eq!(0x66, bus.read(0x01FF).unwrap());
    assert!(matches!(
        bus.read(0x0200),
        Err(Error::Cart(cartridge::Error::ReadAccessViolation { addr: 0x0200 }))
    ));
    assert!(matches!(
        bus.read(0x7FFF),
        Err(Error::Cart(cartridge::Error::ReadAccessViolation { addr: 0x7FFF }))
    ));
}

#[test]
fn a_cartridge_error_becomes_a_bus_error() {
    assert!(matches!(
        Error::from(cartridge::Error::NoHeader),
        Error::Cart(cartridge::Error::NoHeader)
    ));
    assert!(matches!(
        Error::from(cartridge::Error::WriteAccessViolation { addr: 7 }),
        Error::Cart(cartridge::Error::WriteAccessViolation { addr: 7 })
    ));
}
