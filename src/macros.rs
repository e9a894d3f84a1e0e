//! The work that small declarative macros stand for, written as functions:
//! fixed greetings, points, repetition, sign checks and value dispatch.
use vstd::prelude::*;
use vstd::string::*;
use crate::text::{int_text, render_int};

verus! {

/// The greeting line.
pub fn simple_macro_example() -> (r: String)
    ensures
        r@ == "Hello from the macro!"@,
{
    String::from_str("Hello from the macro!")
}

/// A point with integer coordinates.
pub struct Point {
    pub x: i32,
    pub y: i32,
}

impl Point {
    /// How the point is printed: `Point: (x, y)`.
    pub open spec fn text(&self) -> Seq<char> {
        "Point: ("@ + int_text(self.x as int) + ", "@ + int_text(self.y as int) + ")"@
    }

    pub fn describe(&self) -> (r: String)
        ensures
            r@ == self.text(),
    {
        let mut s = String::from_str("Point: (");
        s.append(render_int(self.x as i64).as_str());
        s.append(", ");
        s.append(render_int(self.y as i64).as_str());
        s.append(")");
        s
    }
}

/// The point built from the two arguments.
pub fn create_point(x: i32, y: i32) -> (r: Point)
    ensures
        r.x == x,
        r.y == y,
{
    Point { x, y }
}

/// The point (10, 20) and its printed line.
pub fn macro_with_arguments() -> (r: (Point, String))
    ensures
        r.0.x == 10,
        r.0.y == 20,
        r.1@ == r.0.text(),
{
    let p = create_point(10, 20);
    let line = p.describe();
    (p, line)
}

/// `times` copies of `val`, one per line.
pub fn repeat_code(val: &str, times: usize) -> (r: Vec<String>)
    ensures
        r@.len() == times,
        forall|i: int| 0 <= i < times ==> r@[i]@ == val@,
{
    let mut lines: Vec<String> = Vec::new();
    let mut k: usize = 0;
    while k < times
        invariant
            k <= times,
            lines@.len() == k,
            forall|i: int| 0 <= i < k ==> lines@[i]@ == val@,
        decreases times - k,
    {
        lines.push(String::from_str(val));
        k = k + 1;
    }
    lines
}

/// The word "Rust!" five times.
pub fn repeating_code_macro() -> (r: Vec<String>)
    ensures
        r@.len() == 5,
        forall|i: int| 0 <= i < 5 ==> r@[i]@ == "Rust!"@,
{
    repeat_code("Rust!", 5)
}

/// The verdict on the sign of `val`.
pub open spec fn positive_text(val: int) -> Seq<char> {
    if val > 0 {
        int_text(val) + " is positive!"@
    } else {
        int_text(val) + " is not positive."@
    }
}

pub fn check_positive(val: i64) -> (r: String)
    ensures
        r@ == positive_text(val as int),
{
    let mut s = render_int(val);
    if val > 0 {
        s.append(" is positive!");
    } else {
        s.append(" is not positive.");
    }
    s
}

/// The verdicts on 10 and on -5.
pub fn macros_with_conditionals() -> (r: Vec<String>)
    ensures
        r@.len() == 2,
        r@[0]@ == positive_text(10),
        r@[1]@ == positive_text(-5),
{
    let mut v: Vec<String> = Vec::new();
    v.push(check_positive(10));
    v.push(check_positive(-5));
    v
}

/// The name of a small number: one and two are named, the rest are not.
pub open spec fn number_name(x: int) -> Seq<char> {
    if x == 1 {
        "One!"@
    } else if x == 2 {
        "Two!"@
    } else {
        "Something else!"@
    }
}

pub fn match_example(x: i64) -> (r: String)
    ensures
        r@ == number_name(x as int),
{
    match x {
        1 => String::from_str("One!"),
        2 => String::from_str("Two!"),
        _ => String::from_str("Something else!"),
    }
}

/// The name of the number 2.
pub fn match_example_macro() -> (r: String)
    ensures
        r@ == "Two!"@,
{
    match_example(2)
}

/// The vector 1, 2, 3, 4, 5.
pub fn custom_macro_rules() -> (r: Vec<i32>)
    ensures
        r@ == seq![1i32, 2, 3, 4, 5],
{
    let mut v: Vec<i32> = Vec::new();
    v.push(1);
    v.push(2);
    v.push(3);
    v.push(4);
    v.push(5);
    v
}

} // verus!
