use rust_guide::generics::{divide, largest, make_speak, Cat, Dog, NewsArticle, Point, Speak, Summary, Wrapper};

#[test]
fn point_keeps_coordinates() {
    let p = Point::new(1, 2);
    assert_eq!(*p.get_x(), 1);
    assert_eq!(*p.get_y(), 2);
    let q = Point::new(1.1, 2.2);
    assert_eq!(*q.get_x(), 1.1);
    assert_eq!(*q.get_y(), 2.2);
}

#[test]
fn divide_exact_and_truncating() {
    assert_eq!(divide(10, 2), Ok(5));
    assert_eq!(divide(7, 2), Ok(3));
    assert_eq!(divide(-7, 2), Ok(-3));
    assert_eq!(divide(7, -2), Ok(-3));
    assert_eq!(divide(-7, -2), Ok(3));
    assert_eq!(divide(i32::MIN, 1), Ok(i32::MIN));
    assert_eq!(divide(i32::MIN, 2), Ok(-1073741824));
    assert_eq!(divide(i32::MAX, -1), Ok(-i32::MAX));
}

#[test]
fn divide_by_zero_is_an_error() {
    assert_eq!(divide(10, 0), Err(String::from("Cannot divide by zero")));
    assert_eq!(divide(0, 0), Err(String::from("Cannot divide by zero")));
}

#[test]
fn animals_speak() {
    assert_eq!(Dog.speak(), "Woof!");
    assert_eq!(Cat.speak(), "Meow!");
    assert_eq!(make_speak(Dog), "Woof!");
    assert_eq!(make_speak(Cat), "Meow!");
}

#[test]
fn largest_of_list() {
    assert_eq!(largest(&[34, 50, 25, 100, 65]), 100);
    assert_eq!(largest(&[7]), 7);
    assert_eq!(largest(&[-3, -9, -1]), -1);
    assert_eq!(largest(&[5, 5, 5]), 5);
}

#[test]
fn wrapper_holds_value() {
    let w: Wrapper = Wrapper::new(42);
    assert_eq!(w.value, 42);
    let s = Wrapper::new("Hello".to_string());
    assert_eq!(s.value, "Hello");
}

#[test]
fn article_summary() {
    let article = NewsArticle {
        headline: String::from("Rust is awesome!"),
        content: String::from("Here's why you should learn Rust..."),
    };
    assert_eq!(article.summarize(), "Rust is awesome! - Here's why you should learn Rust...");
}
