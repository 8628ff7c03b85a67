use ownrc::boxed::MyBox;
use ownrc::boxed::allocate;
use ownrc::boxed::read_box;
use ownrc::boxed::release;
use ownrc::boxed::write_box;

#[test]
fn allocate_and_read_a_boxed_value() {
    let b = allocate(5);
    assert_eq!(*read_box(&b), 5);
    assert_eq!(release(b), 5);
}

#[test]
fn mutation_through_the_owning_handle() {
    let mut b = allocate(5);
    *write_box(&mut b) = 6;
    assert_eq!(*read_box(&b), 6);
    assert_eq!(release(b), 6);
}

#[test]
fn wrapper_dereferences_like_a_pointer() {
    let x = 5;
    let y = MyBox::new(x);
    assert_eq!(x, 5);
    assert_eq!(*y.deref(), 5);
}

#[test]
fn chained_dereference_reaches_the_innermost_value() {
    // Wrapping twice and asking for the innermost value: one request,
    // both layers dereferenced in sequence, no unwrapping calls.
    let m = MyBox::new(MyBox::new(String::from("Rust")));
    assert_eq!(*m.deref_innermost(), String::from("Rust"));
}

#[test]
fn unwrap_returns_the_wrapped_value() {
    let m = MyBox::new(String::from("hello"));
    assert_eq!(m.unwrap(), String::from("hello"));
}
