use std::cell::{Cell, RefCell};
use std::rc::Rc;

use stated_scope_guard::dismissable::{call_if, new_dismissable, DismissableScopeGuard};
use stated_scope_guard::dismissible::{discard, forward_if, new_dismissible, DismissibleScopeGuard};

#[test]
fn dismissable_fires_when_not_dismissed() {
    let ran: Rc<Cell<u32>> = Rc::new(Cell::new(0));
    let sink = Rc::clone(&ran);
    let guard = new_dismissable(move || sink.set(sink.get() + 1));
    assert_eq!(ran.get(), 0);
    guard.release();
    assert_eq!(ran.get(), 1);
}

#[test]
fn dismissable_does_not_fire_when_dismissed() {
    let ran: Rc<Cell<bool>> = Rc::new(Cell::new(false));
    let sink = Rc::clone(&ran);
    let mut guard = new_dismissable(move || sink.set(true));
    guard.dismiss();
    guard.release();
    assert!(!ran.get());
}

#[test]
fn dismissable_can_be_dismissed_twice() {
    let ran: Rc<Cell<bool>> = Rc::new(Cell::new(false));
    let sink = Rc::clone(&ran);
    let mut guard = new_dismissable(move || sink.set(true));
    guard.dismiss();
    guard.dismiss();
    guard.release();
    assert!(!ran.get());
}

#[test]
fn dismissable_is_a_guard_of_unit_and_bool() {
    let ran: Rc<Cell<u32>> = Rc::new(Cell::new(0));
    let sink = Rc::clone(&ran);
    let mut guard = new_dismissable(move || sink.set(sink.get() + 1));
    assert_eq!(*guard, ());
    guard.set_state(false);
    guard.set_state(true);
    guard.release();
    assert_eq!(ran.get(), 1);
}

#[test]
fn dismissable_wraps_a_plain_guard() {
    let seen: Rc<RefCell<Vec<bool>>> = Rc::new(RefCell::new(Vec::new()));
    let sink = Rc::clone(&seen);
    let mut guard: DismissableScopeGuard<_> =
        DismissableScopeGuard::new((), true, move |_: (), state: &bool| {
            sink.borrow_mut().push(*state);
        });
    guard.dismiss();
    guard.release();
    assert_eq!(*seen.borrow(), vec![false]);
}

#[test]
fn dismissible_fires_with_the_final_value() {
    let seen: Rc<RefCell<Vec<i64>>> = Rc::new(RefCell::new(Vec::new()));
    let sink = Rc::clone(&seen);
    let mut guard = new_dismissible(10i64, move |value: i64| sink.borrow_mut().push(value));
    *guard -= 13;
    assert_eq!(*guard, -3i64);
    guard.release();
    assert_eq!(*seen.borrow(), vec![-3i64]);
}

#[test]
fn dismissible_logs_nothing_when_dismissed() {
    let log: Rc<RefCell<Vec<i32>>> = Rc::new(RefCell::new(Vec::new()));
    let sink = Rc::clone(&log);
    let mut guard = new_dismissible(3i32, move |value: i32| sink.borrow_mut().push(value));
    guard.dismiss();
    guard.release();
    assert!(log.borrow().is_empty());
}

#[test]
fn dismissible_discards_the_value_when_dismissed() {
    let value: Rc<u8> = Rc::new(1);
    let ran: Rc<Cell<bool>> = Rc::new(Cell::new(false));
    let sink = Rc::clone(&ran);
    let mut guard = new_dismissible(Rc::clone(&value), move |_: Rc<u8>| sink.set(true));
    assert_eq!(Rc::strong_count(&value), 2);
    guard.dismiss();
    assert_eq!(Rc::strong_count(&value), 2);
    assert_eq!(**guard, 1u8);
    guard.release();
    assert!(!ran.get());
    assert_eq!(Rc::strong_count(&value), 1);
}

#[test]
fn dismissible_can_be_dismissed_twice() {
    let ran: Rc<Cell<bool>> = Rc::new(Cell::new(false));
    let sink = Rc::clone(&ran);
    let mut guard = new_dismissible(0u8, move |_: u8| sink.set(true));
    guard.dismiss();
    guard.dismiss();
    guard.release();
    assert!(!ran.get());
}

#[test]
fn dismissible_fires_again_once_the_state_is_set_back() {
    let seen: Rc<RefCell<Vec<char>>> = Rc::new(RefCell::new(Vec::new()));
    let sink = Rc::clone(&seen);
    let mut guard = new_dismissible('x', move |value: char| sink.borrow_mut().push(value));
    guard.dismiss();
    guard.set_state(true);
    *guard = 'y';
    guard.release();
    assert_eq!(*seen.borrow(), vec!['y']);
}

#[test]
fn dismissible_wraps_a_plain_guard() {
    let seen: Rc<RefCell<Vec<(u8, bool)>>> = Rc::new(RefCell::new(Vec::new()));
    let sink = Rc::clone(&seen);
    let mut guard: DismissibleScopeGuard<u8, _> =
        DismissibleScopeGuard::new(4u8, true, move |value: u8, state: &bool| {
            sink.borrow_mut().push((value, *state));
        });
    guard.dismiss();
    guard.release();
    assert_eq!(*seen.borrow(), vec![(4u8, false)]);
}

#[test]
fn forward_if_calls_with_the_flag_up() {
    let seen: Rc<RefCell<Vec<u16>>> = Rc::new(RefCell::new(Vec::new()));
    let sink = Rc::clone(&seen);
    let kept = forward_if(true, move |value: u16| sink.borrow_mut().push(value), 8u16);
    assert!(kept.is_none());
    assert_eq!(*seen.borrow(), vec![8u16]);
}

#[test]
fn forward_if_hands_back_with_the_flag_down() {
    let seen: Rc<RefCell<Vec<u16>>> = Rc::new(RefCell::new(Vec::new()));
    let sink = Rc::clone(&seen);
    let kept = forward_if(false, move |value: u16| sink.borrow_mut().push(value), 8u16);
    assert!(seen.borrow().is_empty());
    match kept {
        Some((callback, value)) => {
            assert_eq!(value, 8u16);
            callback(value + 1);
        }
        None => panic!("nothing came back"),
    }
    assert_eq!(*seen.borrow(), vec![9u16]);
}

#[test]
fn call_if_calls_with_the_flag_up() {
    let ran: Rc<Cell<u32>> = Rc::new(Cell::new(0));
    let sink = Rc::clone(&ran);
    let kept = call_if(true, move || sink.set(sink.get() + 1));
    assert!(kept.is_none());
    assert_eq!(ran.get(), 1);
}

#[test]
fn call_if_hands_back_with_the_flag_down() {
    let ran: Rc<Cell<u32>> = Rc::new(Cell::new(0));
    let sink = Rc::clone(&ran);
    let kept = call_if(false, move || sink.set(sink.get() + 1));
    assert_eq!(ran.get(), 0);
    match kept {
        Some(callback) => callback(),
        None => panic!("nothing came back"),
    }
    assert_eq!(ran.get(), 1);
}

#[test]
fn discard_lets_go_without_calling() {
    let ran: Rc<Cell<u32>> = Rc::new(Cell::new(0));
    let value: Rc<u8> = Rc::new(2);
    let sink = Rc::clone(&ran);
    let kept = forward_if(false, move |_: Rc<u8>| sink.set(sink.get() + 1), Rc::clone(&value));
    assert!(kept.is_some());
    assert_eq!(Rc::strong_count(&value), 2);
    assert_eq!(Rc::strong_count(&ran), 2);
    discard(kept);
    assert_eq!(ran.get(), 0);
    assert_eq!(Rc::strong_count(&value), 1);
    assert_eq!(Rc::strong_count(&ran), 1);
}
