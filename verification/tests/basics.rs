use exercises::fibonacci::fib;
use exercises::naming::add_suffix;
use exercises::rectangle::{area, Rectangle};
use exercises::user::build_user;

#[test]
fn fib_base_cases() {
    assert_eq!(fib(0), 0);
    assert_eq!(fib(1), 1);
}

#[test]
fn fib_small_values() {
    assert_eq!(fib(2), 1);
    assert_eq!(fib(3), 2);
    assert_eq!(fib(10), 55);
}

#[test]
fn fib_large_value() {
    assert_eq!(fib(50), 12586269025);
}

#[test]
fn rectangle_area() {
    let rect = Rectangle {
        width: 30,
        height: 50,
    };
    assert_eq!(rect.area(), 1500);
    assert_eq!(area(&rect), 1500);
}

#[test]
fn rectangle_can_hold() {
    let rect1 = Rectangle {
        width: 30,
        height: 50,
    };
    let rect2 = Rectangle {
        width: 10,
        height: 40,
    };
    let rect3 = Rectangle {
        width: 60,
        height: 45,
    };
    assert!(rect1.can_hold(&rect2));
    assert!(!rect1.can_hold(&rect3));
    assert!(!rect2.can_hold(&rect1));
}

#[test]
fn rectangle_cannot_hold_itself() {
    let rect = Rectangle {
        width: 30,
        height: 50,
    };
    assert!(!rect.can_hold(&rect));
}

#[test]
fn square_and_set_width() {
    let mut square = Rectangle::square(5);
    assert_eq!(square.width, 5);
    assert_eq!(square.height, 5);
    square.set_width(10);
    assert_eq!(square.width, 10);
    assert_eq!(square.height, 5);
    assert_eq!(square.area(), 50);
}

#[test]
fn max_takes_each_dimension() {
    let a = Rectangle {
        width: 9,
        height: 16,
    };
    let b = Rectangle {
        width: 16,
        height: 9,
    };
    let m = a.max(b);
    assert_eq!(m.width, 16);
    assert_eq!(m.height, 16);
}

#[test]
fn add_suffix_appends_family_name() {
    let full = add_suffix(String::from("Can"));
    assert_eq!(full, "Can Kocak");
}

#[test]
fn add_suffix_on_empty_name() {
    let full = add_suffix(String::new());
    assert_eq!(full, " Kocak");
}

#[test]
fn build_user_fills_defaults() {
    let user = build_user(
        String::from("someusername123"),
        String::from("someone@example.com"),
    );
    assert!(user.active);
    assert_eq!(user.username, "someusername123");
    assert_eq!(user.email, "someone@example.com");
    assert_eq!(user.sign_in_count, 1);
}
