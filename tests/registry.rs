use std::any::TypeId;
use std::cell::Cell;
use std::rc::Rc;

use cimpl::registry::PointerRegistry;
use cimpl::Error;

struct Foo;
struct Bar;

fn counter_cleanup(count: &Rc<Cell<u32>>) -> Box<dyn FnOnce()> {
    let count = Rc::clone(count);
    Box::new(move || count.set(count.get() + 1))
}

#[test]
fn scenario_track_validate_free_validate() {
    let runs = Rc::new(Cell::new(0));
    let mut reg = PointerRegistry::new();
    let str_tag = TypeId::of::<String>();
    assert!(reg.track(0x1000, str_tag, counter_cleanup(&runs)).is_none());
    assert!(reg.validate(0x1000, &str_tag).is_ok());
    match reg.free(0x1000) {
        Ok(Some(cleanup)) => cleanup(),
        _ => panic!("free of a live handle must hand back its cleanup"),
    }
    assert_eq!(runs.get(), 1);
    assert!(matches!(reg.validate(0x1000, &str_tag), Err(Error::InvalidHandle(0x1000))));
}

#[test]
fn scenario_wrong_type_leaves_entry() {
    let mut reg = PointerRegistry::new();
    let foo = TypeId::of::<Foo>();
    let bar = TypeId::of::<Bar>();
    assert!(reg.track(0x2000, foo, "C").is_none());
    assert!(matches!(reg.validate(0x2000, &bar), Err(Error::WrongHandleType(0x2000))));
    assert!(reg.validate(0x2000, &foo).is_ok());
    assert_eq!(reg.len(), 1);
}

#[test]
fn scenario_free_never_tracked() {
    let mut reg: PointerRegistry<&str> = PointerRegistry::new();
    let r = reg.free(0x9999);
    assert!(matches!(r, Err(Error::InvalidHandle(0x9999))));
    assert_eq!(r.err().unwrap().code_as_i32(), 3);
}

#[test]
fn scenario_independent_identities() {
    let mut reg = PointerRegistry::new();
    let tag = TypeId::of::<Foo>();
    reg.track(0x3000, tag, 1u8);
    reg.track(0x4000, tag, 2u8);
    assert!(matches!(reg.free(0x3000), Ok(Some(1))));
    assert!(reg.validate(0x4000, &tag).is_ok());
    assert!(matches!(reg.validate(0x3000, &tag), Err(Error::InvalidHandle(0x3000))));
    assert!(matches!(reg.free(0x4000), Ok(Some(2))));
    assert_eq!(reg.len(), 0);
}

#[test]
fn repeated_free_runs_cleanup_once() {
    let runs = Rc::new(Cell::new(0));
    let mut reg = PointerRegistry::new();
    reg.track(0x5000, TypeId::of::<u64>(), counter_cleanup(&runs));
    let mut successes = 0;
    let mut invalid = 0;
    for _ in 0..5 {
        match reg.free(0x5000) {
            Ok(Some(cleanup)) => {
                successes += 1;
                cleanup();
            }
            Err(Error::InvalidHandle(0x5000)) => invalid += 1,
            _ => panic!("unexpected outcome"),
        }
    }
    assert_eq!(successes, 1);
    assert_eq!(invalid, 4);
    assert_eq!(runs.get(), 1);
}

#[test]
fn null_is_always_safe() {
    let mut reg: PointerRegistry<u8> = PointerRegistry::new();
    assert!(matches!(reg.free(0), Ok(None)));
    assert!(matches!(reg.free(0), Ok(None)));
    match reg.validate(0, &TypeId::of::<u8>()) {
        Err(e) => {
            assert_eq!(e.code_as_i32(), 1);
            assert_eq!(e.to_string(), "NullParameter: pointer");
        }
        Ok(()) => panic!("null must not validate"),
    }
    assert_eq!(reg.track(0, TypeId::of::<u8>(), 9), Some(9));
    assert_eq!(reg.len(), 0);
}

#[test]
fn retrack_hands_back_previous_cleanup() {
    let mut reg = PointerRegistry::new();
    let foo = TypeId::of::<Foo>();
    let bar = TypeId::of::<Bar>();
    assert_eq!(reg.track(0x6000, foo, 'a'), None);
    assert_eq!(reg.track(0x6000, bar, 'b'), Some('a'));
    assert!(reg.validate(0x6000, &bar).is_ok());
    assert!(matches!(reg.validate(0x6000, &foo), Err(Error::WrongHandleType(0x6000))));
    assert_eq!(reg.len(), 1);
    assert!(matches!(reg.free(0x6000), Ok(Some('b'))));
}

#[test]
fn invalid_handle_message_is_decimal() {
    let reg: PointerRegistry<u8> = PointerRegistry::new();
    let e = reg.validate(0x1000, &TypeId::of::<u8>()).err().unwrap();
    assert_eq!(e.to_string(), "InvalidHandle: 4096");
}
