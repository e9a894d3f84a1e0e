//! Behaviour shared through traits: greeters of different kinds, and a
//! record whose fields are changed only through its methods.
use vstd::prelude::*;
use vstd::string::*;

verus! {

/// Something that can introduce itself.
pub trait Greet {
    /// The introduction.
    spec fn greeting(&self) -> Seq<char>;

    fn greet(&self) -> (r: String)
        ensures
            r@ == self.greeting(),
    ;
}

pub struct Person {
    pub name: String,
}

pub struct Robot {
    pub model: String,
}

impl Greet for Person {
    open spec fn greeting(&self) -> Seq<char> {
        "Hello, my name is "@ + self.name@ + "."@
    }

    fn greet(&self) -> (r: String) {
        let mut s = String::from_str("Hello, my name is ");
        s.append(self.name.as_str());
        s.append(".");
        s
    }
}

impl Greet for Robot {
    open spec fn greeting(&self) -> Seq<char> {
        "Beep boop, I am model "@ + self.model@ + "."@
    }

    fn greet(&self) -> (r: String) {
        let mut s = String::from_str("Beep boop, I am model ");
        s.append(self.model.as_str());
        s.append(".");
        s
    }
}

/// A pair of numbers that starts as (1, 2).
pub struct MyStruct {
    pub a: i32,
    pub b: i32,
}

impl MyStruct {
    pub fn new() -> (r: Self)
        ensures
            r.a == 1,
            r.b == 2,
    {
        MyStruct { a: 1, b: 2 }
    }

    /// Sets the pair to (10, 20).
    pub fn modify(&mut self)
        ensures
            final(self).a == 10,
            final(self).b == 20,
    {
        self.a = 10;
        self.b = 20;
    }
}

} // verus!
