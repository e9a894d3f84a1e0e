use rust_guide::objects::{Greet, MyStruct, Person as Greeter, Robot};
use rust_guide::ownership::{calculate_length, extend_text, longest};
use rust_guide::structs::{create_person, process_message, Message, Point3};
use rust_guide::types::{add_two_numbers, divide_numbers, find_item_in_vector, grade_comment, Person, Printable};

#[test]
fn length_in_bytes() {
    assert_eq!(calculate_length(&String::from("Hello, Ownership!")), 17);
    assert_eq!(calculate_length(&String::new()), 0);
    assert_eq!(calculate_length(&String::from("héllo")), 6);
}

#[test]
fn longer_string_wins() {
    assert_eq!(longest("Long string", "Short"), "Long string");
    assert_eq!(longest("ab", "abc"), "abc");
    assert_eq!(longest("abc", "xyz"), "xyz");
}

#[test]
fn extends_through_mutable_borrow() {
    let mut text = String::from("Hello");
    extend_text(&mut text, ", Rust!");
    assert_eq!(text, "Hello, Rust!");
}

#[test]
fn optional_lookup() {
    assert_eq!(find_item_in_vector(vec![1, 2, 3, 4, 5], 2), Some(3));
    assert_eq!(find_item_in_vector(vec![1, 2, 3, 4, 5], 5), None);
    assert_eq!(find_item_in_vector(vec![], 0), None);
}

#[test]
fn adds_and_divides() {
    assert_eq!(add_two_numbers(5, 10), 15);
    assert_eq!(add_two_numbers(5, 7), 12);
    assert_eq!(divide_numbers(10, 2), 5);
    assert_eq!(divide_numbers(-9, 4), -2);
}

#[test]
fn printable_person() {
    let p = Person { name: String::from("Alice"), age: 30 };
    assert_eq!(p.print(), "Name: Alice, Age: 30");
}

#[test]
fn grade_remarks() {
    assert_eq!(grade_comment("A"), "Excellent!");
    assert_eq!(grade_comment("B"), "Good job!");
    assert_eq!(grade_comment("C"), "Keep trying!");
    assert_eq!(grade_comment(""), "Keep trying!");
}

#[test]
fn builds_person_record() {
    let p = create_person("Bob", 30, "bob@example.com");
    assert_eq!(p.name, "Bob");
    assert_eq!(p.age, 30);
    assert_eq!(p.email, "bob@example.com");
    let t = Point3(10, 20, 30);
    assert_eq!((t.0, t.1, t.2), (10, 20, 30));
}

#[test]
fn describes_messages() {
    assert_eq!(process_message(Message::Quit), "Received Quit message");
    assert_eq!(process_message(Message::Move { x: 10, y: 15 }), "Moving to coordinates (10, 15)");
    assert_eq!(process_message(Message::Write(String::from("Hello, Rust!"))), "Writing message: Hello, Rust!");
    assert_eq!(process_message(Message::ChangeColor(255, 100, 50)), "Changing color to RGB(255, 100, 50)");
    assert_eq!(process_message(Message::Move { x: -1, y: 0 }), "Moving to coordinates (-1, 0)");
}

#[test]
fn greeters_introduce_themselves() {
    let p = Greeter { name: String::from("Alice") };
    let r = Robot { model: String::from("R2D2") };
    assert_eq!(p.greet(), "Hello, my name is Alice.");
    assert_eq!(r.greet(), "Beep boop, I am model R2D2.");
}

#[test]
fn struct_modified_in_place() {
    let mut s = MyStruct::new();
    assert_eq!((s.a, s.b), (1, 2));
    s.modify();
    assert_eq!((s.a, s.b), (10, 20));
}
