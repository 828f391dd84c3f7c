//! Tests of the status-flag packing and of the stack helper.

use rs6502::Stack;
use rs6502::StackError;
use rs6502::StatusFlags;

#[test]
fn default_is_four() {
    let f = StatusFlags::default();

    assert_eq!(0x04, f.to_u8());
}

#[test]
fn can_convert_to_u8() {
    let mut f = StatusFlags::default();

    f.carry = true;

    assert_eq!(0x05, f.to_u8());
}

#[test]
fn can_convert_to_and_from() {
    let f = StatusFlags {
        carry: true,
        decimal: true,
        sign: true,
        overflow: true,
        interrupt_disabled: false,
        ..Default::default()
    };

    let byte = f.to_u8();
    let result: StatusFlags = byte.into();

    assert_eq!(true, result.carry);
    assert_eq!(true, result.decimal);
    assert_eq!(true, result.sign);
    assert_eq!(true, result.overflow);

    assert_eq!(false, result.interrupt_disabled);
    assert_eq!(false, result.zero);
    assert_eq!(false, result.breakpoint);
    assert_eq!(false, result.unused);
}

#[test]
fn can_push() {
    let mut stack_area = vec![0u8; 0xFF];
    let mut stack = Stack::new();

    let _ = stack.push(&mut stack_area, 55);

    assert_eq!(55, stack_area[0xFE]);
}

#[test]
fn can_push_then_pop() {
    let mut stack_area = vec![0u8; 0xFF];
    let mut stack = Stack::new();

    let _ = stack.push(&mut stack_area, 55);
    let val = stack.pop(&mut stack_area).unwrap();

    assert_eq!(55, val);
}

#[test]
fn can_push_then_pop_multiple() {
    let mut stack_area = vec![0u8; 0xFF];
    let mut stack = Stack::new();

    let _ = stack.push(&mut stack_area, 5);
    let _ = stack.push(&mut stack_area, 10);
    let _ = stack.push(&mut stack_area, 15);
    let _ = stack.push(&mut stack_area, 20);

    let twenty = stack.pop(&mut stack_area).unwrap();
    let fifteen = stack.pop(&mut stack_area).unwrap();
    let ten = stack.pop(&mut stack_area).unwrap();
    let five = stack.pop(&mut stack_area).unwrap();

    assert_eq!(20, twenty);
    assert_eq!(15, fifteen);
    assert_eq!(10, ten);
    assert_eq!(5, five);
}

#[test]
fn can_not_pop_empty_stack() {
    let mut stack_area = vec![0u8; 0xFF];
    let mut stack = Stack::new();

    let result = stack.pop(&mut stack_area);

    assert_eq!(Err(StackError::underflow()), result);
}

#[test]
fn can_not_push_to_full_stack() {
    let mut stack_area = vec![0u8; 0xFF];
    let mut stack = Stack::new();

    for _ in 0..0xFF {
        let _ = stack.push(&mut stack_area, 5);
    }

    let result = stack.push(&mut stack_area, 5);

    assert_eq!(Err(StackError::overflow()), result);
}

#[test]
fn can_push_u16() {
    let mut stack_area = vec![0u8; 0xFF];
    let mut stack = Stack::new();

    let _ = stack.push_u16(&mut stack_area, 0x4400);

    assert_eq!(0x44, stack_area[0xFE]);
    assert_eq!(0x00, stack_area[0xFD]);
}

#[test]
fn can_push_then_pop_u16() {
    let mut stack_area = vec![0u8; 0xFF];
    let mut stack = Stack::new();

    let _ = stack.push_u16(&mut stack_area, 0x4400);
    let result = stack.pop_u16(&mut stack_area).unwrap();

    assert_eq!(0x4400, result);
}
