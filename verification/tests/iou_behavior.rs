use std::cell::Cell;
use std::rc::Rc;

use iou::{CorruptedState, Iou, IouError};

/// The distinct characters of `s`, in order of first occurrence.
fn charset(s: &str) -> Result<Vec<char>, &'static str> {
    let mut v: Vec<char> = Vec::new();
    for ch in s.chars() {
        if !v.contains(&ch) {
            v.push(ch);
        }
    }
    Ok(v)
}

/// An initializer that counts its own invocations through a shared cell.
fn counting_charset(
    counter: &Rc<Cell<u32>>,
) -> impl FnOnce(&'static str) -> Result<Vec<char>, &'static str> {
    let counter = Rc::clone(counter);
    move |s: &'static str| {
        counter.set(counter.get() + 1);
        charset(s)
    }
}

#[test]
fn new_is_not_initialized() {
    let c: Iou<_, _, Vec<char>> = Iou::new("hello", charset);
    assert_eq!(c.is_init(), Ok(false));
}

#[test]
fn read_initializes() {
    let mut c = Iou::new("hello", charset);
    {
        let v = c.get().unwrap();
        assert_eq!(v, &vec!['h', 'e', 'l', 'o']);
        assert_eq!(v.len(), 4);
    }
    assert_eq!(c.is_init(), Ok(true));
}

#[test]
fn mutation_is_seen_by_reads() {
    let mut c = Iou::new("hello", charset);
    let v = c.get_mut().unwrap();
    v.retain(|&ch| ch != 'l');
    assert_eq!(c.get().unwrap(), &vec!['h', 'e', 'o']);
}

#[test]
fn repeated_reads_do_not_rerun_the_initializer() {
    let calls = Rc::new(Cell::new(0u32));
    let mut c = Iou::new("hello", counting_charset(&calls));
    let v = c.get_mut().unwrap();
    v.retain(|&ch| ch != 'l');
    assert_eq!(c.get().unwrap(), &vec!['h', 'e', 'o']);
    assert_eq!(c.get().unwrap(), &vec!['h', 'e', 'o']);
    assert_eq!(calls.get(), 1);
}

#[test]
fn unwrap_returns_the_mutated_value() {
    let mut c = Iou::new("hello", charset);
    let v = c.get_mut().unwrap();
    v.retain(|&ch| ch != 'l');
    assert_eq!(c.unwrap(), Ok(vec!['h', 'e', 'o']));
}

#[test]
fn failed_initializer_corrupts_the_instance() {
    let always_fails = |_s: &'static str| -> Result<Vec<char>, &'static str> { Err("boom") };
    let mut c = Iou::new("hello", always_fails);
    assert_eq!(c.init(), Err(IouError::InitFailed("boom")));
    assert!(matches!(c.get(), Err(IouError::CorruptedState)));
}

#[test]
fn construction_does_not_invoke_the_initializer() {
    let calls = Rc::new(Cell::new(0u32));
    let c: Iou<_, _, Vec<char>> = Iou::new("hello", counting_charset(&calls));
    assert_eq!(calls.get(), 0);
    assert_eq!(c.is_init(), Ok(false));
    assert_eq!(calls.get(), 0);
}

#[test]
fn initializer_runs_at_most_once() {
    let calls = Rc::new(Cell::new(0u32));
    let mut c = Iou::new("hello", counting_charset(&calls));
    assert_eq!(c.init(), Ok(()));
    assert_eq!(calls.get(), 1);
    assert_eq!(c.init(), Ok(()));
    assert!(c.get().is_ok());
    assert!(c.get_mut().is_ok());
    assert_eq!(c.unwrap(), Ok(vec!['h', 'e', 'l', 'o']));
    assert_eq!(calls.get(), 1);
}

#[test]
fn force_is_idempotent() {
    let mut c = Iou::new("hello", charset);
    assert_eq!(c.init(), Ok(()));
    assert_eq!(c.init(), Ok(()));
    assert_eq!(c.init(), Ok(()));
    assert_eq!(c.get().unwrap(), &vec!['h', 'e', 'l', 'o']);
}

#[test]
fn unwrap_of_never_forced_equals_forced_read() {
    let mut read_side = Iou::new("hello", charset);
    let via_read = read_side.get().unwrap().clone();
    let consumed = Iou::new("hello", charset);
    assert_eq!(consumed.unwrap(), Ok(via_read));
}

#[test]
fn unwrap_of_pending_instance_runs_the_initializer() {
    let calls = Rc::new(Cell::new(0u32));
    let c = Iou::new("hello", counting_charset(&calls));
    assert_eq!(c.unwrap(), Ok(vec!['h', 'e', 'l', 'o']));
    assert_eq!(calls.get(), 1);
}

#[test]
fn unwrap_propagates_the_initializer_failure() {
    let always_fails = |_s: &'static str| -> Result<Vec<char>, &'static str> { Err("boom") };
    let c = Iou::new("hello", always_fails);
    assert_eq!(c.unwrap(), Err(IouError::InitFailed("boom")));
}

#[test]
fn corruption_is_sticky_for_every_operation() {
    let always_fails = |_s: &'static str| -> Result<Vec<char>, &'static str> { Err("boom") };
    let mut c = Iou::new("hello", always_fails);
    assert_eq!(c.init(), Err(IouError::InitFailed("boom")));
    assert_eq!(c.is_init(), Err(CorruptedState));
    assert!(matches!(c.get(), Err(IouError::CorruptedState)));
    assert!(matches!(c.get_mut(), Err(IouError::CorruptedState)));
    assert_eq!(c.init(), Err(IouError::CorruptedState));
    assert_eq!(c.unwrap(), Err(IouError::CorruptedState));
}

#[test]
fn is_init_tracks_the_transition() {
    let mut c = Iou::new("hi", charset);
    assert_eq!(c.is_init(), Ok(false));
    assert_eq!(c.init(), Ok(()));
    assert_eq!(c.is_init(), Ok(true));
}

#[test]
fn empty_seed_yields_empty_value() {
    let mut c = Iou::new("", charset);
    assert_eq!(c.get().unwrap(), &Vec::<char>::new());
    assert_eq!(c.unwrap(), Ok(Vec::new()));
}
