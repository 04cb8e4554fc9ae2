use base_kn::{exec, exec_1, factory, func_one, Cacher, SuperCacher};

#[test]
fn test_once() {
    let v = vec![1, 2, 3];
    let (a, b) = func_one(|z| z == v.len());
    println!("{}", a);
    println!("{}", b);
    assert!(a);
    assert!(!b);
}

#[test]
fn test_mut() {
    let mut s = String::new();
    let mut update_string = |str| s.push_str(str);
    update_string("hello");

    println!("{:?}", s);
    assert_eq!(s, "hello");

    let update_string_2 = |str| s.push_str(str);
    exec(update_string_2);
    println!("{:?}", s);
    assert_eq!(s, "hellohello");
}

#[test]
fn test_fn() {
    let s = "hello, ".to_string();
    let update_string = |str| println!("{},{}", s, str);
    exec_1(update_string);

    println!("{:?}", s);
}

#[test]
fn exec_1_passes_world() {
    let seen = std::cell::RefCell::new(String::new());
    exec_1(|w: String| seen.borrow_mut().push_str(&w));
    assert_eq!(*seen.borrow(), "world");
}

#[test]
fn cacher_keeps_first_value() {
    let mut s = Cacher {
        query: |x| x + 1,
        value: None,
    };
    assert_eq!(s.value(34), 35);
    assert_eq!(s.value(1), 35);
    assert_eq!(s.value, Some(35));
}

#[test]
fn cacher_new_starts_empty() {
    let mut s = Cacher::new(|x| x * 2);
    assert_eq!(s.value, None);
    assert_eq!(s.value(4), 8);
    assert_eq!(s.value(10), 8);
}

#[test]
fn super_cacher_holds_strings() {
    let mut c = SuperCacher::new(|a| a);
    assert_eq!(c.value("xxx"), "xxx");
    assert_eq!(c.value("yyy"), "xxx");
}

#[test]
fn super_cacher_holds_numbers() {
    let mut c = SuperCacher::new(|a: i64| a * 3);
    assert_eq!(c.value(7), 21);
    assert_eq!(c.value(100), 21);
}

#[test]
fn factory_adds_five_above_one() {
    let f = factory(2);
    assert_eq!(f(10), 15);
    assert_eq!(f(-5), 0);
}

#[test]
fn factory_subtracts_five_otherwise() {
    let f = factory(1);
    assert_eq!(f(10), 5);
    let g = factory(-7);
    assert_eq!(g(0), -5);
}
