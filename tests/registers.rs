use rust_boy::alu::{FLAG_C, FLAG_Z};
use rust_boy::{CpuError, Memory, Registers};

#[test]
fn power_on_is_zero() {
    let r = Registers::new();
    assert_eq!(r, Registers { a: 0, f: 0, b: 0, c: 0, d: 0, e: 0, h: 0, l: 0, sp: 0, pc: 0 });
    assert_eq!(Registers::default(), r);
}

#[test]
fn pairs_are_views_over_halves() {
    let mut r = Registers::new();
    r.set_r16_register_value(0, 0x1234);
    r.set_r16_register_value(1, 0x5678);
    r.set_r16_register_value(2, 0x9ABC);
    r.set_r16_register_value(3, 0xDEF0);
    assert_eq!((r.b, r.c, r.d, r.e, r.h, r.l, r.sp), (0x12, 0x34, 0x56, 0x78, 0x9A, 0xBC, 0xDEF0));
    assert_eq!(r.get_r16_register_value(0), 0x1234);
    assert_eq!(r.get_r16_register_value(3), 0xDEF0);
    assert_eq!(r.get_hl_value(), 0x9ABC);
    r.set_r16_register_stack_value(3, 0xA1B2);
    assert_eq!((r.a, r.f), (0xA1, 0xB2));
    assert_eq!(r.get_r16_register_stack_value(3), 0xA1B2);
    assert_eq!(r.get_r16_register_stack_value(2), 0x9ABC);
    assert_eq!(r.sp, 0xDEF0);
}

#[test]
fn eight_bit_selectors() {
    let mut memory = Memory::new();
    let mut r = Registers::new();
    for (sel, value) in [(0u8, 1u8), (1, 2), (2, 3), (3, 4), (4, 0x00), (5, 0x40), (7, 8)] {
        assert_eq!(r.set_r8_register_value(sel, value, &mut memory), Ok(()));
    }
    assert_eq!((r.b, r.c, r.d, r.e, r.h, r.l, r.a), (1, 2, 3, 4, 0x00, 0x40, 8));
    assert_eq!(r.set_r8_register_value(6, 0x99, &mut memory), Ok(()));
    assert_eq!(memory.get_value_at_memory_address(0x0040), 0x99);
    assert_eq!(r.get_r8_register_value(6, &memory), Ok(0x99));
    assert_eq!(r.get_r8_register_value(7, &memory), Ok(8));
    r.h = 0x40;
    assert_eq!(r.get_r8_register_value(6, &memory), Err(CpuError::MemoryOutOfBounds { address: 0x4040 }));
    assert_eq!(
        r.set_r8_register_value(6, 1, &mut memory),
        Err(CpuError::MemoryOutOfBounds { address: 0x4040 })
    );
}

#[test]
fn conditions() {
    let mut r = Registers::new();
    assert!(r.should_execute(0));
    assert!(!r.should_execute(1));
    assert!(r.should_execute(2));
    assert!(!r.should_execute(3));
    r.f = FLAG_Z | FLAG_C;
    assert!(!r.should_execute(0));
    assert!(r.should_execute(1));
    assert!(!r.should_execute(2));
    assert!(r.should_execute(3));
}

#[test]
fn memory_reads_and_writes() {
    let mut memory = Memory::default();
    assert_eq!(memory.get_value_at_memory_address(0x1FFF), 0);
    memory.set_value_at_memory_address(0x1FFF, 0xAB);
    assert_eq!(memory.get_value_at_memory_address(0x1FFF), 0xAB);
    assert_eq!(memory.load(0x1FFF), Ok(0xAB));
    assert_eq!(memory.load(0x2000), Err(CpuError::MemoryOutOfBounds { address: 0x2000 }));
    assert_eq!(memory.store(0x0000, 7), Ok(()));
    assert_eq!(memory.get_value_at_memory_address(0), 7);
    assert_eq!(memory.store(0xFFFF, 7), Err(CpuError::MemoryOutOfBounds { address: 0xFFFF }));
}
