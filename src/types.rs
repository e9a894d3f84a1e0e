//! Type-directed APIs: optional lookups, checked arithmetic, traits that
//! describe a value, and dispatch on string values.
use vstd::prelude::*;
use vstd::string::*;
use crate::generics::{divide, truncated_quotient};
use crate::text::{int_text, render_int};

verus! {

/// The element at `index`, if there is one.
pub fn find_item_in_vector(v: Vec<i32>, index: usize) -> (r: Option<i32>)
    ensures
        r == (if index < v@.len() {
            Some(v@[index as int])
        } else {
            None::<i32>
        }),
{
    if index < v.len() {
        Some(v[index])
    } else {
        None
    }
}

/// The sum of two numbers that is known to fit.
pub fn add_two_numbers(a: i32, b: i32) -> (r: i32)
    requires
        i32::MIN <= a + b <= i32::MAX,
    ensures
        r == a + b,
{
    a + b
}

/// Division where a zero divisor is a caller's mistake rather than an outcome.
pub fn divide_numbers(a: i32, b: i32) -> (r: i32)
    requires
        b != 0,
        !(a == i32::MIN && b == -1),
    ensures
        r == truncated_quotient(a as int, b as int),
{
    divide(a, b).unwrap()
}

/// A value that can render itself as one line of text.
pub trait Printable {
    /// The line this value prints as.
    spec fn line(&self) -> Seq<char>;

    fn print(&self) -> (r: String)
        ensures
            r@ == self.line(),
    ;
}

/// A person known by name and age.
pub struct Person {
    pub name: String,
    pub age: u32,
}

impl Printable for Person {
    open spec fn line(&self) -> Seq<char> {
        "Name: "@ + self.name@ + ", Age: "@ + int_text(self.age as int)
    }

    fn print(&self) -> (r: String) {
        let mut s = String::from_str("Name: ");
        s.append(self.name.as_str());
        s.append(", Age: ");
        s.append(render_int(self.age as i64).as_str());
        s
    }
}

/// The remark that goes with a letter grade.
pub open spec fn grade_remark(grade: Seq<char>) -> Seq<char> {
    if grade == "A"@ {
        "Excellent!"@
    } else if grade == "B"@ {
        "Good job!"@
    } else {
        "Keep trying!"@
    }
}

pub fn grade_comment(grade: &str) -> (r: String)
    ensures
        r@ == grade_remark(grade@),
{
    let g = String::from_str(grade);
    if g == String::from_str("A") {
        String::from_str("Excellent!")
    } else if g == String::from_str("B") {
        String::from_str("Good job!")
    } else {
        String::from_str("Keep trying!")
    }
}

} // verus!
