use gboyrust::memory::Memory;

#[test]
fn memory_at_power_up() {
    let memory = Memory::default();
    assert_eq!(memory.read(0x0000), 0x00);
    assert_eq!(memory.read(0xFF44), 0xFF);
    assert_eq!(memory.read(0xFF02), 0xFF);
    // The timer answers at its addresses, and it is at rest.
    assert_eq!(memory.read(0xFF07), 0x00);
    assert_eq!(memory.get_mem_slice().len(), 0x10000);
    assert_eq!(memory.get_mem_slice()[0xFF07], 0xF8);
    assert_eq!(memory.serial_output().len(), 0);
}

#[test]
fn a_written_byte_is_read_back() {
    let mut memory = Memory::default();
    memory.write(0xC000, 0x12);
    memory.write(0xFFFF, 0x34);
    memory.write(0x0000, 0x56);
    assert_eq!(memory.read(0xC000), 0x12);
    assert_eq!(memory.read(0xFFFF), 0x34);
    assert_eq!(memory.read(0x0000), 0x56);
    assert_eq!(memory.read(0xC001), 0x00);
}

#[test]
fn timer_addresses_go_to_the_timer() {
    let mut memory = Memory::default();
    memory.write(0xFF05, 0x11);
    memory.write(0xFF06, 0x22);
    memory.write(0xFF07, 0x33);
    assert_eq!(memory.read(0xFF05), 0x11);
    assert_eq!(memory.read(0xFF06), 0x22);
    assert_eq!(memory.read(0xFF07), 0x33);
    memory.update_timer(0x200);
    assert_eq!(memory.read(0xFF04), 0x02);
    memory.write(0xFF04, 0x55);
    assert_eq!(memory.read(0xFF04), 0x00);
    // The stored bytes behind the timer stay as they were.
    assert_eq!(memory.get_mem_slice()[0xFF05], 0x00);
}

#[test]
fn writing_0x81_to_the_serial_control_sends_the_data_byte() {
    let mut memory = Memory::default();
    memory.write(0xFF01, b'H');
    memory.write(0xFF02, 0x81);
    memory.write(0xFF01, b'i');
    memory.write(0xFF02, 0x81);
    assert_eq!(memory.serial_output(), [b'H', b'i']);
    // Nothing was stored.
    assert_eq!(memory.read(0xFF02), 0xFF);
    memory.write(0xFF02, 0x80);
    assert_eq!(memory.read(0xFF02), 0x80);
    assert_eq!(memory.serial_output(), [b'H', b'i']);
    memory.clear_serial_output();
    assert_eq!(memory.serial_output().len(), 0);
}

#[test]
fn a_cartridge_is_loaded_from_address_zero() {
    let mut memory = Memory::default();
    memory.write(0x0003, 0xEE);
    memory.load_cartridge(&[0x01, 0x02, 0x03]);
    assert_eq!(memory.read(0x0000), 0x01);
    assert_eq!(memory.read(0x0001), 0x02);
    assert_eq!(memory.read(0x0002), 0x03);
    assert_eq!(memory.read(0x0003), 0xEE);
    let full = vec![0xABu8; 0x10000];
    memory.load_cartridge(&full);
    assert_eq!(memory.read(0x0000), 0xAB);
    assert_eq!(memory.read(0xFFFF), 0xAB);
    assert_eq!(memory.get_mem_slice()[0xFF04], 0xAB);
}
