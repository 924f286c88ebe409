use sss_one::shapes::Rectangle;
use sss_one::text::{calculate_length, change_string, gives_ownership, no_dangle};

#[test]
fn owned_strings() {
    assert_eq!(gives_ownership(), "yours");
    assert_eq!(no_dangle(), "no dangle");
}

#[test]
fn lengths_are_in_bytes() {
    assert_eq!(calculate_length(&String::from("borrow me")), 9);
    assert_eq!(calculate_length(&String::new()), 0);
    assert_eq!(calculate_length(&String::from("é")), 2);
}

#[test]
fn change_string_appends() {
    let mut s = String::from("hello");
    change_string(&mut s);
    assert_eq!(s, "hello, world!");
}

#[test]
fn rectangle_area_and_square() {
    let r = Rectangle { width: 30, height: 50 };
    assert_eq!(r.area(), 1500);
    let s = Rectangle::square(25);
    assert_eq!(s, Rectangle { width: 25, height: 25 });
    assert_eq!(s.area(), 625);
    assert_eq!(Rectangle { width: 65535, height: 65537 }.area(), u32::MAX);
}
