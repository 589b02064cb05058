use chip8::{Display, LoadError, Memory, Registers};

#[test]
fn registers_start_at_program() {
    let r = Registers::new();
    assert_eq!(r.gpr, vec![0u8; 16]);
    assert_eq!(r.pc, 0x200);
    assert_eq!(r.sp, -1);
    assert_eq!((r.i, r.dt, r.st), (0, 0, 0));
}

#[test]
fn memory_accessors_are_bounds_checked() {
    let mut m = Memory::new(&vec![1u8, 2, 3]).expect("fits");
    assert_eq!(m.read(0x201), Some(2));
    assert_eq!(m.read(0x203), Some(0));
    assert_eq!(m.read(4096), None);
    assert!(m.write(4095, 9));
    assert_eq!(m.read(4095), Some(9));
    assert!(!m.write(4096, 9));
    assert_eq!(m.stack, vec![0u16; 16]);
}

#[test]
fn memory_rejects_oversized_image() {
    assert!(matches!(Memory::new(&vec![0u8; 3585]), Err(LoadError::TooLarge)));
    assert!(Memory::new(&vec![0u8; 3584]).is_ok());
}

#[test]
fn fifteen_row_sprite_wraps_and_clear_resets() {
    let mut d = Display::new();
    let sprite = vec![0x01u8; 15];
    assert!(!d.draw_sprite(&sprite, 15, 7, 20));
    // rows 20..32 then 0..3
    assert_eq!(d.row(20), 1u64 << 49);
    assert_eq!(d.row(2), 1u64 << 49);
    assert_eq!(d.row(3), 0);
    assert_eq!(d.row(19), 0);
    d.clear();
    for r in 0..32 {
        assert_eq!(d.row(r), 0);
    }
}

#[test]
fn coordinates_past_the_screen_wrap() {
    let mut d = Display::new();
    d.draw_sprite(&vec![0x80u8], 1, 64 + 3, 32 + 1);
    assert_eq!(d.row(1), 1u64 << 60);
    assert!(d.pixel(3, 1));
}
