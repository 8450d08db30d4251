use gboyrust::cpu::timer::RaiseInterruptFlag;
use gboyrust::cpu::timer::TimerController;
use gboyrust::memory::Memory;

#[test]
fn tima_steps_once_in_1024_cycles_and_reloads_from_tma() {
    let mut memory = Memory::default();
    memory.write(0xFF07, 0x04);
    memory.write(0xFF05, 0x10);
    memory.write(0xFF06, 0x42);
    memory.update_timer(1023);
    assert_eq!(memory.read(0xFF05), 0x10);
    memory.update_timer(1);
    assert_eq!(memory.read(0xFF05), 0x11);
    memory.update_timer(1024);
    assert_eq!(memory.read(0xFF05), 0x12);
    assert_eq!(memory.read(0xFF0F) & 0x04, 0x00);
    memory.write(0xFF05, 0xFF);
    memory.update_timer(1024);
    assert_eq!(memory.read(0xFF05), 0x42);
    assert_eq!(memory.read(0xFF0F) & 0x04, 0x04);
}

#[test]
fn the_four_divisors() {
    for (select, divisor) in [(0u8, 1024usize), (1, 16), (2, 64), (3, 256)] {
        let mut timer = TimerController::new();
        timer.write(0xFF07, 0x04 | select);
        assert_eq!(timer.update(divisor - 1), RaiseInterruptFlag::NoChanges);
        assert_eq!(timer.read(0xFF05), 0);
        assert_eq!(timer.update(1), RaiseInterruptFlag::NoChanges);
        assert_eq!(timer.read(0xFF05), 1);
        assert_eq!(timer.update(3 * divisor + 1), RaiseInterruptFlag::NoChanges);
        assert_eq!(timer.read(0xFF05), 4);
        assert_eq!(timer.update(divisor - 1), RaiseInterruptFlag::NoChanges);
        assert_eq!(timer.read(0xFF05), 5);
    }
}

#[test]
fn a_disabled_timer_does_not_count() {
    let mut timer = TimerController::new();
    timer.write(0xFF07, 0x03);
    assert_eq!(timer.update(100_000), RaiseInterruptFlag::NoChanges);
    assert_eq!(timer.read(0xFF05), 0);
    timer.write(0xFF07, 0x05);
    assert_eq!(timer.update(15), RaiseInterruptFlag::NoChanges);
    assert_eq!(timer.read(0xFF05), 0);
    assert_eq!(timer.update(1), RaiseInterruptFlag::NoChanges);
    assert_eq!(timer.read(0xFF05), 1);
}

#[test]
fn an_overflow_is_reported_and_counting_goes_on_from_tma() {
    let mut timer = TimerController::new();
    timer.write(0xFF07, 0x05);
    timer.write(0xFF06, 0xF0);
    timer.write(0xFF05, 0xFE);
    assert_eq!(timer.update(16), RaiseInterruptFlag::NoChanges);
    assert_eq!(timer.read(0xFF05), 0xFF);
    assert_eq!(timer.update(16), RaiseInterruptFlag::CustomTimerOverflowed);
    assert_eq!(timer.read(0xFF05), 0xF0);
    // Three more steps after the reload within one update.
    timer.write(0xFF05, 0xFF);
    assert_eq!(timer.update(64), RaiseInterruptFlag::CustomTimerOverflowed);
    assert_eq!(timer.read(0xFF05), 0xF3);
}

#[test]
fn div_is_the_high_byte_of_a_free_running_counter() {
    let mut timer = TimerController::new();
    assert_eq!(timer.read(0xFF04), 0);
    timer.update(255);
    assert_eq!(timer.read(0xFF04), 0);
    timer.update(1);
    assert_eq!(timer.read(0xFF04), 1);
    timer.update(0x1234);
    assert_eq!(timer.read(0xFF04), 0x13);
    timer.update(0x10000);
    assert_eq!(timer.read(0xFF04), 0x13);
    timer.update(0xED00);
    assert_eq!(timer.read(0xFF04), 0x00);
}

#[test]
fn a_write_to_div_resets_the_counter_and_leaves_tima() {
    let mut timer = TimerController::new();
    timer.write(0xFF07, 0x05);
    timer.update(0x0320);
    assert_eq!(timer.read(0xFF04), 0x03);
    assert_eq!(timer.read(0xFF05), 0x32);
    timer.write(0xFF04, 0x99);
    assert_eq!(timer.read(0xFF04), 0x00);
    assert_eq!(timer.read(0xFF05), 0x32);
    assert_eq!(timer.read(0xFF07), 0x05);
    timer.timer_reset();
    assert_eq!(timer.read(0xFF04), 0x00);
    timer.write(0xFF06, 0x77);
    assert_eq!(timer.read(0xFF06), 0x77);
}
