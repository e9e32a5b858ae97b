use std::cell::Cell;
use std::rc::Rc;

use tagged_result::Result;
use tagged_result::ResultData;
use tagged_result::ResultKind;

#[test]
fn success_reports_success() {
    let x: Result<i32, String> = Result::new_ok(5);
    assert!(x.is_ok());
    assert!(!x.is_err());
    assert_eq!(*x.kind(), ResultKind::Success);
}

#[test]
fn failure_reports_failure() {
    let x: Result<i32, String> = Result::new_err(String::from("boom"));
    assert!(!x.is_ok());
    assert!(x.is_err());
    assert_eq!(*x.kind(), ResultKind::Failure);
}

#[test]
fn native_round_trip_success() {
    let r: std::result::Result<i32, String> = std::result::Result::Ok(41);
    let x = Result::from_result(r);
    assert!(x.is_ok());
    let back = x.into_result();
    assert_eq!(back, std::result::Result::Ok(41));
}

#[test]
fn native_round_trip_failure() {
    let r: std::result::Result<i32, String> = std::result::Result::Err(String::from("no"));
    let x = Result::from_result(r);
    assert!(x.is_err());
    let back = x.into_result();
    assert_eq!(back, std::result::Result::Err(String::from("no")));
}

#[test]
fn tagged_round_trip_keeps_kind_and_value() {
    let x: Result<i32, i32> = Result::new_err(7);
    let k = *x.kind();
    let mid = x.into_result();
    let back = Result::from_result(mid);
    assert_eq!(*back.kind(), k);
    assert_eq!(back.err(), Some(7));
}

#[test]
fn data_exposes_live_payload() {
    let x: Result<i32, String> = Result::new_ok(9);
    assert!(matches!(x.data(), ResultData::Success(9)));
    let y: Result<i32, String> = Result::new_err(String::from("e"));
    assert!(matches!(y.data(), ResultData::Failure(e) if e == "e"));
}

#[test]
fn as_ref_borrows_live_payload() {
    let x: Result<i32, String> = Result::new_ok(12);
    let v = x.as_ref();
    assert!(v.is_ok());
    assert_eq!(v.ok(), Some(&12));
    assert!(x.is_ok());
    assert_eq!(x.ok(), Some(12));
}

#[test]
fn map_transforms_success() {
    let x: Result<i32, String> = Result::new_ok(4);
    let y = x.map(|v| v * 10);
    assert_eq!(y.ok(), Some(40));
}

#[test]
fn map_passes_failure_through_without_calling_transform() {
    let called = Cell::new(false);
    let x: Result<i32, String> = Result::new_err(String::from("keep"));
    let y = x.map(|v| {
        called.set(true);
        v * 10
    });
    assert!(!called.get());
    assert_eq!(y.err(), Some(String::from("keep")));
}

#[test]
fn map_err_transforms_failure() {
    let x: Result<i32, i32> = Result::new_err(3);
    let y = x.map_err(|e| e + 100);
    assert_eq!(y.err(), Some(103));
}

#[test]
fn map_err_passes_success_through_without_calling_transform() {
    let called = Cell::new(false);
    let x: Result<i32, i32> = Result::new_ok(8);
    let y = x.map_err(|e| {
        called.set(true);
        e + 100
    });
    assert!(!called.get());
    assert_eq!(y.ok(), Some(8));
}

#[test]
fn unwrap_returns_success_value() {
    let x: Result<i32, String> = Result::new_ok(5);
    assert_eq!(x.unwrap(), 5);
}

#[test]
fn expect_returns_success_value() {
    let x: Result<i32, String> = Result::new_ok(6);
    assert_eq!(x.expect("should hold a value"), 6);
}

#[test]
fn unwrap_err_returns_failure_value() {
    let x: Result<i32, String> = Result::new_err(String::from("boom"));
    assert_eq!(x.unwrap_err(), String::from("boom"));
}

#[test]
fn expect_err_returns_failure_value() {
    let x: Result<i32, String> = Result::new_err(String::from("bad"));
    assert_eq!(x.expect_err("should hold an error"), String::from("bad"));
}

#[test]
fn ok_extracts_or_discards() {
    let x: Result<i32, String> = Result::new_ok(1);
    assert_eq!(x.ok(), Some(1));
    let y: Result<i32, String> = Result::new_err(String::from("e"));
    assert_eq!(y.ok(), None);
}

#[test]
fn err_extracts_or_discards() {
    let x: Result<i32, String> = Result::new_ok(1);
    assert_eq!(x.err(), None);
    let y: Result<i32, String> = Result::new_err(String::from("e"));
    assert_eq!(y.err(), Some(String::from("e")));
}

#[test]
fn equality_same_variant_same_payload() {
    let a: Result<i32, i32> = Result::new_ok(5);
    let b: Result<i32, i32> = Result::new_ok(5);
    let c: Result<i32, i32> = Result::new_ok(5);
    assert!(a == a);
    assert!(a == b && b == a);
    assert!(a == b && b == c && a == c);
    let d: Result<i32, i32> = Result::new_ok(6);
    assert!(a != d);
}

#[test]
fn equality_never_crosses_variants() {
    let a: Result<i32, i32> = Result::new_ok(5);
    let b: Result<i32, i32> = Result::new_err(5);
    assert!(a != b);
    assert!(b != a);
}

#[test]
fn clone_is_equal_and_independent() {
    let a: Result<Vec<i32>, String> = Result::new_ok(vec![1, 2, 3]);
    let b = a.clone();
    assert!(a == b);
    drop(b);
    assert_eq!(a.ok(), Some(vec![1, 2, 3]));
}

#[test]
fn clone_shares_nothing_with_original() {
    let cell: Rc<Cell<usize>> = Rc::new(Cell::new(0));
    let a: Result<Rc<Cell<usize>>, String> = Result::new_ok(Rc::clone(&cell));
    let b = a.clone();
    assert_eq!(Rc::strong_count(&cell), 3);
    drop(b);
    assert_eq!(Rc::strong_count(&cell), 2);
    let payload = a.ok().expect("success payload");
    payload.set(7);
    assert_eq!(cell.get(), 7);
}

#[test]
fn debug_renders_kind_and_payload() {
    let x: Result<i32, String> = Result::new_ok(5);
    let text = format!("{:?}", x);
    assert!(text.contains("Success"));
    assert!(text.contains('5'));
}

struct Probe {
    drops: Rc<Cell<usize>>,
}

impl Drop for Probe {
    fn drop(&mut self) {
        self.drops.set(self.drops.get() + 1);
    }
}

#[test]
fn every_instance_destroys_its_live_payload_exactly_once() {
    let ok_drops: Rc<Cell<usize>> = Rc::new(Cell::new(0));
    let err_drops: Rc<Cell<usize>> = Rc::new(Cell::new(0));
    let rounds: usize = 10_000;
    let mut ok_made: usize = 0;
    let mut err_made: usize = 0;
    for i in 0..rounds {
        if i % 2 == 0 {
            ok_made += 1;
            let x: Result<Probe, Probe> = Result::new_ok(Probe { drops: Rc::clone(&ok_drops) });
            match i % 8 {
                0 => drop(x),
                2 => {
                    let taken = x.ok();
                    assert!(taken.is_some());
                }
                4 => {
                    assert!(x.err().is_none());
                }
                _ => {
                    let native = x.into_result();
                    assert!(native.is_ok());
                }
            }
        } else {
            err_made += 1;
            let x: Result<Probe, Probe> = Result::new_err(Probe { drops: Rc::clone(&err_drops) });
            match i % 8 {
                1 => drop(x),
                3 => {
                    let taken = x.err();
                    assert!(taken.is_some());
                }
                5 => {
                    assert!(x.ok().is_none());
                }
                _ => {
                    let native = x.into_result();
                    assert!(native.is_err());
                }
            }
        }
    }
    assert_eq!(ok_drops.get(), ok_made);
    assert_eq!(err_drops.get(), err_made);
}
