use boii::bus::Bus;
use boii::cartridge::{Cartridge, ValidationSettings};
use boii::cpu::Cpu;

#[test]
fn a_step_runs_nothing_and_leaves_the_memory() {
    let mut rom = vec![0u8; 0x0150];
    rom[0x0100] = 0x3E;
    rom[0x0149] = 0x02;
    let settings = ValidationSettings {
        check_rom_size: false,
        check_nintento_logo: false,
        check_header_checksum: false,
        check_global_checksum: false,
    };
    let mut cart = Cartridge::from_rom_data(rom, &settings).unwrap();
    assert!(cart.write_ram(0, 0x12).is_ok());
    let mut bus = Bus { cart: &mut cart };
    let mut cpu = Cpu::new();

    assert_eq!(false, cpu.step(&mut bus));
    assert_eq!(false, cpu.step(&mut bus));

    assert_eq!(0x3E, bus.read(0x0100).unwrap());
    assert_eq!(0x12, bus.read(0xA000).unwrap());
    assert_eq!(0x00, bus.read(0xA001).unwrap());
}
