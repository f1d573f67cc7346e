use harder::HardOption;
use harder::HardResult;

#[test]
fn ok_unwrap_returns_payload() {
    let v = HardResult::<i32, u8>::new(41);
    assert_eq!(v.unwrap(), 41);
}

#[test]
fn err_unwrap_err_returns_payload() {
    let v = HardResult::<i32, u8>::new_err(7);
    assert_eq!(v.unwrap_err(), 7);
}

#[test]
fn expect_returns_payload() {
    let v = HardResult::<i32, u8>::new(3);
    assert_eq!(v.expect("should be ok"), 3);
}

#[test]
fn expect_err_returns_payload() {
    let v = HardResult::<i32, u8>::new_err(9);
    assert_eq!(v.expect_err("should be err"), 9);
}

#[test]
fn unwrap_or_uses_payload_when_ok() {
    assert_eq!(HardResult::<i32, u8>::new(5).unwrap_or(99), 5);
}

#[test]
fn unwrap_or_uses_default_when_err() {
    assert_eq!(HardResult::<i32, u8>::new_err(1).unwrap_or(99), 99);
}

#[test]
fn unwrap_or_else_feeds_error() {
    let r = HardResult::<i32, i32>::new_err(20).unwrap_or_else(|e| e + 1);
    assert_eq!(r, 21);
}

#[test]
fn unwrap_or_default_on_err_gives_zero() {
    assert_eq!(HardResult::<u32, u8>::new_err(3).unwrap_or_default(), 0);
    assert_eq!(HardResult::<u32, u8>::new(8).unwrap_or_default(), 8);
}

#[test]
fn map_identity_keeps_value() {
    let mapped = HardResult::<i32, u8>::new(12).map(|x| x);
    assert_eq!(mapped.unwrap(), 12);
    let mapped_err = HardResult::<i32, u8>::new_err(3).map(|x| x);
    assert_eq!(mapped_err.unwrap_err(), 3);
}

#[test]
fn map_passes_err_through_unchanged() {
    let mapped = HardResult::<i32, u8>::new_err(5).map(|x| x * 100);
    assert_eq!(mapped.unwrap_err(), 5);
}

#[test]
fn map_err_passes_ok_through_unchanged() {
    let mapped = HardResult::<i32, u8>::new(6).map_err(|e| e + 1);
    assert_eq!(mapped.unwrap(), 6);
}

#[test]
fn map_transforms_ok_payload() {
    let mapped = HardResult::<i32, u8>::new(21).map(|x| x * 2);
    assert_eq!(mapped.unwrap(), 42);
}

#[test]
fn map_or_folds_both_sides() {
    assert_eq!(HardResult::<i32, u8>::new(4).map_or(0, |x| x + 1), 5);
    assert_eq!(HardResult::<i32, u8>::new_err(4).map_or(0, |x| x + 1), 0);
}

#[test]
fn map_or_else_dispatches_to_one_continuation() {
    let a = HardResult::<i32, i32>::new(10).map_or_else(|e| e - 1, |x| x + 1);
    assert_eq!(a, 11);
    let b = HardResult::<i32, i32>::new_err(10).map_or_else(|e| e - 1, |x| x + 1);
    assert_eq!(b, 9);
}

#[test]
fn and_then_chains_and_short_circuits() {
    let ok = HardResult::<i32, u8>::new(2).and_then(|x| HardResult::new(x + 1));
    assert_eq!(ok.unwrap(), 3);
    let err = HardResult::<i32, u8>::new_err(7).and_then(|x| HardResult::new(x + 1));
    assert_eq!(err.unwrap_err(), 7);
}

#[test]
fn and_then_composition_is_associative_on_ok() {
    let f = |x: i32| -> HardResult<i32, u8> { HardResult::new(x + 1) };
    let g = |x: i32| -> HardResult<i32, u8> { HardResult::new(x * 2) };
    let left = HardResult::<i32, u8>::new(5).and_then(f).and_then(g);
    let right = HardResult::<i32, u8>::new(5).and_then(|x| f(x).and_then(g));
    let left_value = left.unwrap();
    assert_eq!(left_value, right.unwrap());
    assert_eq!(left_value, 12);
}

#[test]
fn and_then_composition_is_associative_on_err() {
    let f = |x: i32| -> HardResult<i32, u8> { HardResult::new(x + 1) };
    let g = |x: i32| -> HardResult<i32, u8> { HardResult::new(x * 2) };
    let left = HardResult::<i32, u8>::new_err(9).and_then(f).and_then(g);
    let right = HardResult::<i32, u8>::new_err(9).and_then(|x| f(x).and_then(g));
    let left_error = left.unwrap_err();
    assert_eq!(left_error, right.unwrap_err());
    assert_eq!(left_error, 9);
}

#[test]
fn and_then_short_circuits_middle_error() {
    let fails = |_x: i32| -> HardResult<i32, u8> { HardResult::new_err(13) };
    let g = |x: i32| -> HardResult<i32, u8> { HardResult::new(x * 2) };
    let r = HardResult::<i32, u8>::new(1).and_then(fails).and_then(g);
    assert_eq!(r.unwrap_err(), 13);
}

#[test]
fn or_else_recovers_err() {
    let r = HardResult::<i32, u8>::new_err(2).or_else(|e| HardResult::<i32, u16>::new(e as i32));
    assert_eq!(r.unwrap(), 2);
    let kept = HardResult::<i32, u8>::new(4).or_else(|_e| HardResult::<i32, u16>::new(0));
    assert_eq!(kept.unwrap(), 4);
}

#[test]
fn or_and_and_replace_sides() {
    let a = HardResult::<i32, u8>::new_err(1).or(HardResult::<i32, u16>::new(8));
    assert_eq!(a.unwrap(), 8);
    let b = HardResult::<i32, u8>::new(1).and(HardResult::<u32, u8>::new(9));
    assert_eq!(b.unwrap(), 9);
    let c = HardResult::<i32, u8>::new_err(6).and(HardResult::<u32, u8>::new(9));
    assert_eq!(c.unwrap_err(), 6);
}

#[test]
fn ok_is_some_agrees_with_is_ok() {
    let ok = HardResult::<i32, u8>::new(1);
    let ok_side = ok.is_ok().if_else(|| true, || false);
    assert_eq!(ok.ok().is_some().if_else(|| true, || false), ok_side);
    let err = HardResult::<i32, u8>::new_err(1);
    let err_side = err.is_ok().if_else(|| true, || false);
    assert_eq!(err.ok().is_some().if_else(|| true, || false), err_side);
    assert!(ok_side);
    assert!(!err_side);
}

#[test]
fn err_is_some_agrees_with_is_err() {
    let ok = HardResult::<i32, u8>::new(1);
    assert_eq!(
        ok.is_err().if_else(|| true, || false),
        ok.err().is_some().if_else(|| true, || false),
    );
    let err = HardResult::<i32, u8>::new_err(1);
    assert_eq!(
        err.is_err().if_else(|| true, || false),
        err.err().is_some().if_else(|| true, || false),
    );
}

#[test]
fn ok_and_err_extract_their_sides() {
    assert_eq!(HardResult::<i32, u8>::new(30).ok().unwrap(), 30);
    assert!(HardResult::<i32, u8>::new_err(2).ok().is_none().if_else(|| true, || false));
    assert_eq!(HardResult::<i32, u8>::new_err(2).err().unwrap(), 2);
    assert!(HardResult::<i32, u8>::new(30).err().is_none().if_else(|| true, || false));
}

#[test]
fn transpose_twice_restores_some_some() {
    let v: HardOption<HardOption<i32>> = HardOption::some(HardOption::some(5));
    let back = v.transpose().transpose();
    assert_eq!(back.unwrap().unwrap(), 5);
}

#[test]
fn transpose_twice_restores_some_none() {
    let v: HardOption<HardOption<i32>> = HardOption::some(HardOption::none());
    let back = v.transpose().transpose();
    let inner = back.unwrap();
    assert!(inner.is_none().if_else(|| true, || false));
}

#[test]
fn transpose_twice_restores_none() {
    let v: HardOption<HardOption<i32>> = HardOption::none();
    let back = v.transpose().transpose();
    assert!(back.is_none().if_else(|| true, || false));
}

#[test]
fn transpose_moves_error_inside() {
    let v: HardResult<HardOption<i32>, u8> = HardResult::new_err(3);
    let t = v.transpose();
    assert_eq!(t.unwrap().unwrap_err(), 3);
}

#[test]
fn as_ref_reads_without_consuming() {
    let v = HardResult::<i32, u8>::new(14);
    assert_eq!(*v.as_ref().unwrap(), 14);
    assert_eq!(v.unwrap(), 14);
    let e = HardResult::<i32, u8>::new_err(2);
    assert_eq!(*e.as_ref().unwrap_err(), 2);
}

#[test]
fn as_mut_writes_through_projection() {
    let mut v = HardResult::<i32, u8>::new(5);
    *v.as_mut().unwrap() = 7;
    assert_eq!(v.unwrap(), 7);
    let mut e = HardResult::<i32, u8>::new_err(1);
    *e.as_mut().unwrap_err() = 4;
    assert_eq!(e.unwrap_err(), 4);
}

#[test]
fn copied_and_cloned_own_the_payload() {
    let x: i32 = 33;
    let v: HardResult<&i32, u8> = HardResult::new(&x);
    assert_eq!(v.copied().unwrap(), 33);
    let w: HardResult<&i32, u8> = HardResult::new(&x);
    assert_eq!(w.cloned().unwrap(), 33);
    let mut y: i32 = 44;
    let m: HardResult<&mut i32, u8> = HardResult::new(&mut y);
    assert_eq!(m.copied().unwrap(), 44);
    let mut z: i32 = 55;
    let n: HardResult<&mut i32, u8> = HardResult::new(&mut z);
    assert_eq!(n.cloned().unwrap(), 55);
}

#[test]
fn as_deref_reaches_the_target() {
    let v: HardResult<Box<i32>, u8> = HardResult::new(Box::new(25));
    assert_eq!(*v.as_deref().unwrap(), 25);
}

#[test]
fn as_deref_mut_writes_the_target() {
    let mut v: HardResult<Box<i32>, u8> = HardResult::new(Box::new(1));
    *v.as_deref_mut().unwrap() = 2;
    assert_eq!(*v.unwrap(), 2);
}

#[test]
fn clone_preserves_variant_and_payload() {
    let v = HardResult::<i32, u8>::new(77);
    let c = v.clone();
    assert_eq!(c.unwrap(), 77);
    assert_eq!(v.unwrap(), 77);
    let e = HardResult::<i32, u8>::new_err(9);
    assert_eq!(e.clone().unwrap_err(), 9);
}

#[test]
fn unchecked_accessors_extract_known_sides() {
    let v = HardResult::<i32, u8>::new(10);
    assert_eq!(v.unwrap_unchecked(), 10);
    let e = HardResult::<i32, u8>::new_err(11);
    assert_eq!(e.unwrap_err_unchecked(), 11);
}
