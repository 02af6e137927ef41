use mos6502::composite_bus::ranges_overlap;
use mos6502::composite_bus::CompositeBus;
use mos6502::composite_bus::MirrorRange;
use mos6502::error::BusError;
use mos6502::memory::Ram;
use mos6502::mos6502::Bus;

#[test]
fn test_ram_starts_zeroed_and_takes_writes() {
    let mut ram = Ram::new(0x0100);
    assert_eq!(ram.read(0x0000).unwrap(), 0);
    assert_eq!(ram.read(0x00ff).unwrap(), 0);
    ram.write(0x0040, 0xab).unwrap();
    assert_eq!(ram.read(0x0040).unwrap(), 0xab);
}

#[test]
fn test_ram_refuses_accesses_outside_its_size() {
    let mut ram = Ram::new(0x0100);
    assert_eq!(ram.read(0x0100), Err(BusError::InvalidRead(0x0100)));
    assert_eq!(ram.write(0x0100, 1), Err(BusError::InvalidWrite(0x0100)));
}

#[test]
fn test_ranges_overlap_detects_an_overlap() {
    let ranges: Vec<MirrorRange> = vec![
        ((0x0000, 0x00ff), (0x2000, 0x20ff)),
        ((0x1000, 0x10ff), (0x0080, 0x017f)),
    ];
    assert!(ranges_overlap(&ranges));
}

#[test]
fn test_ranges_overlap_accepts_disjoint_ranges() {
    let ranges: Vec<MirrorRange> = vec![
        ((0x0000, 0x00ff), (0x0100, 0x01ff)),
        ((0x1000, 0x10ff), (0x1100, 0x11ff)),
    ];
    assert!(!ranges_overlap(&ranges));
    let empty: Vec<MirrorRange> = vec![];
    assert!(!ranges_overlap(&empty));
}

#[test]
fn test_composite_bus_keeps_its_parts() {
    let parts = vec![Ram::new(0x0100), Ram::new(0x0100)];
    let mirrors: Vec<MirrorRange> = vec![((0x0000, 0x00ff), (0x0100, 0x01ff))];
    let bus = CompositeBus::new(parts, mirrors);
    assert!(bus.is_ok());
}
