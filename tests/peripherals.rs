use gb_core::interrupt_flags::InterruptFlags;
use gb_core::joypad::Joypad;
use gb_core::timer::{Frequency, Timer};

#[test]
fn joypad_bytes_round_trip() {
    let j = Joypad::new();
    assert_eq!(j.to_byte(), 0x3F);
    for b in 0u8..64 {
        assert_eq!(Joypad::from_byte(b).to_byte(), b);
    }
    let mut k = Joypad::from_byte(0);
    k.reset_joypad();
    assert_eq!(k, Joypad::new());
}

#[test]
fn interrupt_flag_bytes() {
    let mut f = InterruptFlags::new();
    assert_eq!(f.to_byte(), 0);
    f.from_byte(0xFF);
    assert_eq!(f.to_byte(), 0x1F);
    f.from_byte(0x12);
    assert!(f.lcd_stat && f.joypad && !f.vblank);
}

#[test]
fn timer_ticks_and_reloads() {
    let mut t = Timer::new(Frequency::F262144);
    assert!(!t.step(100));
    assert_eq!(t.cycles, 0);
    t.enabled = true;
    t.modulo = 0x42;
    t.value = 0xFF;
    assert!(!t.step(16));
    assert_eq!(t.value, 0xFF);
    assert!(t.step(1));
    assert_eq!(t.value, 0x42);
    assert_eq!(t.cycles, 1);
    assert_eq!(Frequency::F4096.cycles_per_tick(), 1024);
}
