use harder::HardBool;

fn truth(b: HardBool) -> bool {
    b.if_else(|| true, || false)
}

#[test]
fn and_truth_table() {
    assert!(truth(HardBool::new_true().bitand(HardBool::new_true())));
    assert!(!truth(HardBool::new_true().bitand(HardBool::new_false())));
    assert!(!truth(HardBool::new_false().bitand(HardBool::new_true())));
    assert!(!truth(HardBool::new_false().bitand(HardBool::new_false())));
}

#[test]
fn or_truth_table() {
    assert!(truth(HardBool::new_true().bitor(HardBool::new_true())));
    assert!(truth(HardBool::new_true().bitor(HardBool::new_false())));
    assert!(truth(HardBool::new_false().bitor(HardBool::new_true())));
    assert!(!truth(HardBool::new_false().bitor(HardBool::new_false())));
}

#[test]
fn xor_truth_table() {
    assert!(!truth(HardBool::new_true().bitxor(HardBool::new_true())));
    assert!(truth(HardBool::new_true().bitxor(HardBool::new_false())));
    assert!(truth(HardBool::new_false().bitxor(HardBool::new_true())));
    assert!(!truth(HardBool::new_false().bitxor(HardBool::new_false())));
}

#[test]
fn not_truth_table() {
    assert!(!truth(HardBool::new_true().not()));
    assert!(truth(HardBool::new_false().not()));
}

#[test]
fn truncate_keeps_only_the_discriminant() {
    let v = harder::HardResult::<i32, u8>::new(3);
    assert!(truth(v.truncate()));
    let e = harder::HardResult::<i32, u8>::new_err(3);
    assert!(!truth(e.truncate()));
}

#[test]
fn then_with_runs_only_on_true() {
    let yes = HardBool::new_true().then_with(|| 5);
    assert_eq!(yes.unwrap(), 5);
    let no = HardBool::new_false().then_with(|| 5);
    assert!(truth(no.is_none()));
}

#[test]
fn then_some_keeps_value_only_on_true() {
    assert_eq!(HardBool::new_true().then_some(8).unwrap(), 8);
    assert!(truth(HardBool::new_false().then_some(8).is_none()));
}

#[test]
fn if_else_takes_exactly_one_branch() {
    assert_eq!(HardBool::new_true().if_else(|| 1, || 2), 1);
    assert_eq!(HardBool::new_false().if_else(|| 1, || 2), 2);
}

#[test]
fn if_then_otherwise_sugar() {
    let a = HardBool::new_true().if_then(|| 10).otherwise(|| 20);
    assert_eq!(a, 10);
    let b = HardBool::new_false().if_then(|| 10).otherwise(|| 20);
    assert_eq!(b, 20);
}

#[test]
fn from_bool_round_trip() {
    let t: HardBool = true.into();
    let f: HardBool = false.into();
    assert!(truth(t));
    assert!(!truth(f));
}
