use chip8::{Chip8Error, Stack};

#[test]
fn stack_push_pop() {
    let mut stack = Stack::new();
    stack.push(5).unwrap();
    stack.push(7).unwrap();
    assert_eq!(stack.stack[0], 5);
    assert_eq!(stack.stack[1], 7);
    assert_eq!(stack.pop(), Ok(7));
    assert_eq!(stack.pop(), Ok(5));
    assert_eq!(stack.top, -1);
    assert_eq!(stack.is_full(), false);
    assert_eq!(stack.is_empty(), true);
}

#[test]
fn stack_is_empty() {
    let stack = Stack::new();
    assert_eq!(stack.is_empty(), true);
}

#[test]
fn stack_is_full() {
    let mut stack = Stack::new();
    for idx in 0..32 {
        stack.push(idx).unwrap();
    }
    assert_eq!(stack.is_full(), true);
    stack.pop().unwrap();
    assert_eq!(stack.is_full(), false);
}

#[test]
fn stack_round_trip() {
    let mut stack = Stack::new();
    stack.push(0x300).unwrap();
    stack.push(0xABC).unwrap();
    assert_eq!(stack.top(), Ok(0xABC));
    assert_eq!(stack.pop(), Ok(0xABC));
    assert_eq!(stack.top(), Ok(0x300));
}

#[test]
fn stack_overflow_when_full() {
    let mut stack = Stack::new();
    for idx in 0..32 {
        stack.push(idx).unwrap();
    }
    assert_eq!(stack.push(99), Err(Chip8Error::StackOverflow));
    assert_eq!(stack.top(), Ok(31));
    assert_eq!(stack.top, 31);
}

#[test]
fn stack_underflow_when_empty() {
    let mut stack = Stack::new();
    assert_eq!(stack.pop(), Err(Chip8Error::StackUnderflow));
    assert_eq!(stack.top(), Err(Chip8Error::StackUnderflow));
    assert_eq!(stack.top, -1);
}

#[test]
fn stack_depth_counts_entries() {
    let mut stack = Stack::new();
    assert_eq!(stack.depth(), 0);
    stack.push(1).unwrap();
    stack.push(2).unwrap();
    assert_eq!(stack.depth(), 2);
    stack.pop().unwrap();
    assert_eq!(stack.depth(), 1);
}
