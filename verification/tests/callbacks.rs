use std::cell::RefCell;
use std::rc::Rc;
use template::callback::{run_on, Callback, Pending};

#[test]
fn run_on_hands_back_what_the_callback_left() {
    assert_eq!(run_on(|w: &mut i32| *w *= 2, 18), 36);
    assert_eq!(run_on(|_: &mut i32| (), 18), 18);
    assert_eq!(
        run_on(|w: &mut String| w.push_str("!"), "done".to_string()),
        "done!"
    );
}

#[test]
fn a_callback_runs_when_it_is_told_to() {
    let ran = Rc::new(RefCell::new(0));
    let seen = ran.clone();
    let callback = Callback::new(move |w: &mut i32| {
        *seen.borrow_mut() += 1;
        *w -= 3;
    });
    assert_eq!(*ran.borrow(), 0);
    assert_eq!(callback.run(10), 7);
    assert_eq!(*ran.borrow(), 1);
}

#[test]
fn a_new_queue_is_empty_and_leaves_the_output_alone() {
    let pending = Pending::<i32>::new();
    assert_eq!(pending.len(), 0);
    assert_eq!(pending.fire(5), 5);
}

#[test]
fn register_appends_and_runs_nothing() {
    let ran = Rc::new(RefCell::new(0));
    let mut pending = Pending::<i32>::new();
    for expected in 1..=3 {
        let seen = ran.clone();
        pending.register(move |_| *seen.borrow_mut() += 1);
        assert_eq!(pending.len(), expected);
    }
    assert_eq!(*ran.borrow(), 0);
}

#[test]
fn fire_runs_oldest_first_each_on_what_the_last_left() {
    let mut pending = Pending::<i32>::new();
    pending.register(|w| *w += 1);
    pending.register(|w| *w *= 2);
    pending.register(|w| *w -= 3);
    assert_eq!(pending.fire(6), 11);
}

#[test]
fn fire_runs_each_callback_once() {
    let runs = Rc::new(RefCell::new(Vec::new()));
    let mut pending = Pending::<u8>::new();
    for id in 0..5 {
        let log = runs.clone();
        pending.register(move |_| log.borrow_mut().push(id));
    }
    assert_eq!(pending.fire(0), 0);
    assert_eq!(*runs.borrow(), vec![0, 1, 2, 3, 4]);
}

#[test]
fn callbacks_of_different_types_share_a_queue() {
    let offset = 40;
    let text = "ab".to_string();
    let mut pending = Pending::<usize>::new();
    pending.register(move |w| *w += offset);
    pending.register(move |w| *w += text.len());
    pending.register(|w| *w /= 2);
    assert_eq!(pending.fire(0), 21);
}
