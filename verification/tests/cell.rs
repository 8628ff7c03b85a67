use ownrc::cell::BorrowCell;
use ownrc::cell::BorrowState;

#[test]
fn borrow_mut_fails_while_a_borrow_is_out() {
    let mut cell = BorrowCell::new(5);
    assert!(cell.try_borrow());
    assert!(!cell.try_borrow_mut());
    assert_eq!(*cell.read(), 5);
    cell.release_shared();
}

#[test]
fn borrow_fails_while_a_borrow_mut_is_out() {
    let mut cell = BorrowCell::new(5);
    assert!(cell.try_borrow_mut());
    assert!(!cell.try_borrow());
    assert!(!cell.try_borrow_mut());
    cell.release_exclusive();
}

#[test]
fn two_shared_borrows_both_succeed() {
    let mut cell = BorrowCell::new(7);
    assert!(cell.try_borrow());
    assert!(cell.try_borrow());
    assert_eq!(*cell.read(), 7);
    assert_eq!(cell.state_tag(), BorrowState::Shared { count: 2 });
    cell.release_shared();
    cell.release_shared();
}

#[test]
fn releasing_the_last_borrow_enables_borrow_mut() {
    let mut cell = BorrowCell::new(1);
    assert!(cell.try_borrow());
    cell.release_shared();
    assert!(cell.try_borrow_mut());
    cell.release_exclusive();

    assert!(cell.try_borrow_mut());
    cell.release_exclusive();
    assert!(cell.try_borrow_mut());
    cell.release_exclusive();
}

#[test]
fn mutation_through_the_exclusive_borrow() {
    let mut cell = BorrowCell::new(5);
    assert!(cell.try_borrow_mut());
    let prev = cell.set(15);
    assert_eq!(prev, 5);
    cell.release_exclusive();
    assert!(cell.try_borrow());
    assert_eq!(*cell.read(), 15);
    cell.release_shared();
}
