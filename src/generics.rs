//! Generic structs, traits and trait-bounded functions.
use vstd::prelude::*;
use vstd::string::*;

verus! {

/// A point in the plane whose coordinates share one type.
pub struct Point<T> {
    pub x: T,
    pub y: T,
}

impl<T> Point<T> {
    pub fn new(x: T, y: T) -> (r: Point<T>)
        ensures
            r.x == x,
            r.y == y,
    {
        Point { x, y }
    }

    pub fn get_x(&self) -> (r: &T)
        ensures
            *r == self.x,
    {
        &self.x
    }

    pub fn get_y(&self) -> (r: &T)
        ensures
            *r == self.y,
    {
        &self.y
    }
}

/// Absolute value.
pub open spec fn abs(a: int) -> int {
    if a < 0 {
        -a
    } else {
        a
    }
}

/// Quotient of `a` by `b` rounded toward zero, as Rust's `/` computes it.
/// (In specifications `/` is Euclidean; the two agree on non-negative operands.)
pub open spec fn truncated_quotient(a: int, b: int) -> int {
    let q = abs(a) / abs(b);
    if (a < 0) == (b < 0) {
        q
    } else {
        -q
    }
}

/// The magnitude of `a`, which always fits in a `u32`.
fn magnitude(a: i32) -> (r: u32)
    ensures
        r as int == abs(a as int),
{
    if a < 0 {
        (0i64 - a as i64) as u32
    } else {
        a as u32
    }
}

/// Divides `dividend` by `divisor`, refusing a zero divisor.
pub fn divide(dividend: i32, divisor: i32) -> (r: Result<i32, String>)
    requires
        !(dividend == i32::MIN && divisor == -1),
    ensures
        r is Err <==> divisor == 0,
        r matches Err(e) ==> e@ == "Cannot divide by zero"@,
        r matches Ok(q) ==> q == truncated_quotient(dividend as int, divisor as int),
{
    if divisor == 0 {
        Err(String::from_str("Cannot divide by zero"))
    } else {
        let n = magnitude(dividend);
        let d = magnitude(divisor);
        let m = n / d;
        if (dividend < 0) == (divisor < 0) {
            assert(m <= i32::MAX) by (nonlinear_arith)
                requires
                    m == n / d,
                    d >= 1,
                    n <= 0x8000_0000,
                    d == 1 ==> n <= 0x7fff_ffff,
            ;
            Ok(m as i32)
        } else {
            Ok((0i64 - m as i64) as i32)
        }
    }
}

/// Something that makes a sound when asked to speak.
pub trait Speak {
    /// The words this speaker says.
    spec fn sound(&self) -> Seq<char>;

    fn speak(&self) -> (r: String)
        ensures
            r@ == self.sound(),
    ;
}

pub struct Dog;

pub struct Cat;

impl Speak for Dog {
    open spec fn sound(&self) -> Seq<char> {
        "Woof!"@
    }

    fn speak(&self) -> (r: String) {
        String::from_str("Woof!")
    }
}

impl Speak for Cat {
    open spec fn sound(&self) -> Seq<char> {
        "Meow!"@
    }

    fn speak(&self) -> (r: String) {
        String::from_str("Meow!")
    }
}

/// Lets any speaker speak.
pub fn make_speak<T: Speak>(animal: T) -> (r: String)
    ensures
        r@ == animal.sound(),
{
    animal.speak()
}

/// The greatest element of a non-empty list.
pub fn largest(list: &[i32]) -> (r: i32)
    requires
        list@.len() > 0,
    ensures
        list@.contains(r),
        forall|i: int| 0 <= i < list@.len() ==> list@[i] <= r,
{
    let mut best: usize = 0;
    let mut i: usize = 1;
    while i < list.len()
        invariant
            0 < i <= list@.len(),
            best < i,
            forall|k: int| 0 <= k < i ==> list@[k] <= list@[best as int],
        decreases list@.len() - i,
    {
        if list[i] > list[best] {
            best = i;
        }
        i = i + 1;
    }
    list[best]
}

/// A box around one value; its parameter is `i32` unless given.
pub struct Wrapper<T = i32> {
    pub value: T,
}

impl<T> Wrapper<T> {
    pub fn new(value: T) -> (r: Wrapper<T>)
        ensures
            r.value == value,
    {
        Wrapper { value }
    }
}

/// A type that can describe itself in a short text.
pub trait Summary {
    type Output: View;

    /// The abstract value of this value's summary.
    spec fn summary(&self) -> <Self::Output as View>::V;

    fn summarize(&self) -> (r: Self::Output)
        ensures
            r@ == self.summary(),
    ;
}

pub struct NewsArticle {
    pub headline: String,
    pub content: String,
}

impl Summary for NewsArticle {
    type Output = String;

    /// The headline, a spaced dash, then the content.
    open spec fn summary(&self) -> Seq<char> {
        self.headline@ + " - "@ + self.content@
    }

    fn summarize(&self) -> (r: String) {
        let mut s = self.headline.clone();
        s.append(" - ");
        s.append(self.content.as_str());
        s
    }
}

} // verus!
