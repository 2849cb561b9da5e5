use armv4::bus::Bus;
use armv4::memory::ram::Ram;
use armv4::memory::readable::{ByteReadable, HalfWordReadable, WordReadable};
use armv4::memory::rom::Rom;
use armv4::memory::writable::{ByteWritable, HalfWordWritable, WordWritable};

#[test]
fn ram_read_byte() {
    let ram = Ram::new(vec![0x01, 0x00, 0x00, 0x00]);
    assert_eq!(ByteReadable::read_byte(&ram, 0), 0x01);
}

#[test]
fn ram_read_halfword() {
    let ram = Ram::new(vec![0x01, 0x02, 0x00, 0x00]);
    assert_eq!(ram.read_halfword(0), 0x0201);
}

#[test]
fn ram_read_word() {
    let ram = Ram::new(vec![0x01, 0x02, 0x03, 0x04]);
    assert_eq!(WordReadable::read_word(&ram, 0), 0x0403_0201);
}

#[test]
fn ram_write_byte() {
    let mut ram = Ram::new(vec![0x00, 0x00, 0x00, 0x00]);
    ByteWritable::write_byte(&mut ram, 0, 0x01);
    assert_eq!(ByteReadable::read_byte(&ram, 0), 0x01);
}

#[test]
fn ram_write_halfword() {
    let mut ram = Ram::new(vec![0x00, 0x00, 0x00, 0x00]);
    ram.write_halfword(0, 0x1234);
    assert_eq!(ram.read_halfword(0), 0x1234);
}

#[test]
fn ram_write_word() {
    let mut ram = Ram::new(vec![0x00, 0x00, 0x00, 0x00]);
    WordWritable::write_word(&mut ram, 0, 0x1234_5678);
    assert_eq!(WordReadable::read_word(&ram, 0), 0x1234_5678);
}

#[test]
fn rom_read_byte() {
    let rom = Rom::new(4, vec![0x01, 0x00, 0x00, 0x00]);
    assert_eq!(rom.read_byte(0), 0x01);
}

#[test]
fn rom_read_halfword() {
    let rom = Rom::new(4, vec![0x01, 0x02, 0x00, 0x00]);
    assert_eq!(rom.read_halfword(0), 0x0201);
}

#[test]
fn rom_read_word() {
    let rom = Rom::new(4, vec![0x01, 0x02, 0x03, 0x04]);
    assert_eq!(rom.read_word(0), 0x0403_0201);
}

#[test]
fn rom_pads_init_with_zeroes() {
    let rom = Rom::new(8, vec![0xAA, 0xBB]);
    assert_eq!(rom.read_byte(1), 0xBB);
    assert_eq!(rom.read_word(4), 0);
}

#[test]
fn ram_bus_reads_zero_beyond_extent() {
    let ram = Ram::new(vec![0x11, 0x22]);
    assert_eq!(Bus::read_byte(&ram, 0), 0x11);
    assert_eq!(Bus::read_byte(&ram, 5), 0x00);
    assert_eq!(Bus::read_word(&ram, 0), 0x0000_2211);
}

#[test]
fn ram_bus_write_grows_extent() {
    let mut ram = Ram::new(vec![0x00; 4]);
    Bus::write_word(&mut ram, 6, 0xDDCC_BBAA);
    assert_eq!(Bus::read_word(&ram, 6), 0xDDCC_BBAA);
    assert_eq!(Bus::read_byte(&ram, 5), 0x00);
    Bus::write_byte(&mut ram, 0, 0x7F);
    assert_eq!(Bus::read_byte(&ram, 0), 0x7F);
}
