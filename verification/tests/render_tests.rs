use display_sim::app_error::AppError;
use display_sim::render_types::{BufferWork, TextureBufferStack, LINEAR_INTERPOLATION};

#[test]
fn pushes_allocate_then_reuse_targets() {
    let mut stack = TextureBufferStack::new();
    assert_eq!(stack.push(), Ok(BufferWork::Append { depth: false }));
    assert_eq!(stack.push_with_depth(true), Ok(BufferWork::Append { depth: true }));
    assert_eq!(stack.bind_current(), Ok((1, 800, 600)));
    assert_eq!(stack.pop(), Ok(()));
    assert_eq!(stack.pop(), Ok(()));
    assert_eq!(stack.assert_no_stack(), Ok(0));
    assert_eq!(stack.push(), Ok(BufferWork::Reuse));
    assert_eq!(stack.push_with_depth(true), Ok(BufferWork::Reuse));
    assert_eq!(stack.push(), Ok(BufferWork::Append { depth: false }));
    assert_eq!(stack.buffers, vec![false, true, false]);
}

#[test]
fn depth_requirements_last_for_the_frame() {
    let mut stack = TextureBufferStack::new();
    stack.push_with_depth(true).unwrap();
    stack.pop().unwrap();
    assert_eq!(stack.push(), Ok(BufferWork::Reuse));
    stack.pop().unwrap();
    stack.assert_no_stack().unwrap();
    assert_eq!(stack.push(), Ok(BufferWork::Replace { index: 0, depth: false }));
}

#[test]
fn nth_targets_are_counted_from_the_cursor() {
    let mut stack = TextureBufferStack::new();
    stack.push().unwrap();
    stack.push().unwrap();
    assert_eq!(stack.get_nth(0), Ok(1));
    assert_eq!(stack.get_nth(-1), Ok(0));
    assert_eq!(stack.get_nth(1), Err("Bad texture buffer sttack access on index == 2".to_string()));
    assert_eq!(stack.get_nth(-2), Err("Bad texture buffer sttack access on index == -1".to_string()));
    assert_eq!(stack.get_current(), Ok(1));
}

#[test]
fn an_empty_stack_has_no_current_target() {
    let mut stack = TextureBufferStack::new();
    assert_eq!(stack.pop(), Err("Bad texture buffer stack access on cursor == 0.".to_string()));
    assert_eq!(stack.bind_current(), Err("Bad texture buffer stack access on cursor == 0.".to_string()));
}

#[test]
fn a_stack_in_use_cannot_be_cleared_or_closed() {
    let mut stack = TextureBufferStack::new();
    stack.push().unwrap();
    assert_eq!(stack.clear(), Err("Cannot clear a texture buffer stack with cursor at 1.".to_string()));
    assert_eq!(stack.assert_no_stack(), Err("Texture buffer stack cursor not zero, '1' instead.".to_string()));
    stack.pop().unwrap();
    assert_eq!(stack.clear(), Ok(()));
    assert!(stack.buffers.is_empty());
}

#[test]
fn unused_targets_are_dropped_at_the_end_of_a_frame() {
    let mut stack = TextureBufferStack::new();
    for _ in 0..3 {
        stack.push().unwrap();
    }
    for _ in 0..3 {
        stack.pop().unwrap();
    }
    assert_eq!(stack.assert_no_stack(), Ok(0));
    stack.push().unwrap();
    stack.pop().unwrap();
    assert_eq!(stack.assert_no_stack(), Ok(2));
    assert_eq!(stack.buffers.len(), 1);
}

#[test]
fn new_sizes_and_filters_drop_the_targets() {
    let mut stack = TextureBufferStack::new();
    assert_eq!(stack.interpolation, LINEAR_INTERPOLATION);
    stack.push().unwrap();
    stack.pop().unwrap();
    assert!(!stack.set_resolution(0, 10));
    assert!(!stack.set_resolution(800, 600));
    assert_eq!(stack.buffers.len(), 1);
    assert!(stack.set_resolution(1024, 768));
    assert!(stack.buffers.is_empty());
    assert_eq!((stack.width, stack.height), (1024, 768));
    stack.push().unwrap();
    stack.pop().unwrap();
    assert!(!stack.set_interpolation(LINEAR_INTERPOLATION));
    assert!(stack.set_interpolation(0x2600));
    assert!(stack.buffers.is_empty());
}

#[test]
fn errors_keep_their_messages() {
    assert_eq!(AppError::from("no texture".to_string()).to_string(), "no texture");
    assert_eq!(AppError::new("no buffer".to_string()).to_string(), "no buffer");
}
