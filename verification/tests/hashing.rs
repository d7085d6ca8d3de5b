use mictils::HashCode;

#[test]
fn hashcode_eq_usize() {
    let val1 = 12usize.hashcode();
    let val2 = 12usize.hashcode();

    assert_eq!(val1, val2);
}

#[test]
fn hashcode_eq_isize() {
    let val1 = 12isize.hashcode();
    let val2 = 12isize.hashcode();

    assert_eq!(val1, val2);
}

#[test]
fn hashcode_eq_str() {
    let val1 = String::from("HashCode").hashcode();
    let val2 = String::from("HashCode").hashcode();

    assert_eq!(val1, val2);
}

#[test]
fn hashcode_eq_vec() {
    let val1 = vec![1, 2, 3].hashcode();
    let val2 = vec![1, 2, 3].hashcode();

    assert_eq!(val1, val2);
}

#[test]
fn hashcode_idempotent_on_unchanged_value() {
    let val = String::from("steady");

    let first = val.hashcode();
    let second = val.hashcode();

    assert_eq!(first, second);
}

#[test]
fn hashcode_eq_string_built_differently() {
    let plain = String::from("Hello, World");
    let assembled = format!("{}, {}", "Hello", "World");

    assert_eq!(plain.hashcode(), assembled.hashcode());
}

#[test]
fn hashcode_eq_vec_built_differently() {
    let literal = vec![1i32, 2, 3];
    let mut grown: Vec<i32> = Vec::new();
    grown.push(1);
    grown.push(2);
    grown.push(3);

    assert_eq!(literal.hashcode(), grown.hashcode());
}

#[test]
fn hashcode_eq_negative_signed() {
    let val1 = (-12i64).hashcode();
    let val2 = (-12i64).hashcode();

    assert_eq!(val1, val2);
}

#[test]
fn hashcode_eq_str_slice() {
    let val1 = "HashCode".hashcode();
    let val2 = "HashCode".hashcode();

    assert_eq!(val1, val2);
}

#[test]
fn hashcode_eq_bool() {
    assert_eq!(true.hashcode(), true.hashcode());
    assert_eq!(false.hashcode(), false.hashcode());
}

#[test]
fn hashcode_eq_empty_vec() {
    let val1 = Vec::<u32>::new().hashcode();
    let val2 = Vec::<u32>::new().hashcode();

    assert_eq!(val1, val2);
}
