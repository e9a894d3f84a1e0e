//! Records and tagged unions: building a record from borrowed parts and
//! describing each kind of message.
use vstd::prelude::*;
use vstd::string::*;
use crate::text::{int_text, render_int};

verus! {

/// A contact record.
pub struct Person {
    pub name: String,
    pub age: u32,
    pub email: String,
}

/// A record that owns copies of the given name and address.
pub fn create_person(name: &str, age: u32, email: &str) -> (r: Person)
    ensures
        r.name@ == name@,
        r.age == age,
        r.email@ == email@,
{
    Person { name: String::from_str(name), age, email: String::from_str(email) }
}

/// A point in space given by three coordinates.
pub struct Point3(pub i32, pub i32, pub i32);

/// Each kind of message, with the data it carries.
pub enum Message {
    Quit,
    Move { x: i32, y: i32 },
    Write(String),
    ChangeColor(i32, i32, i32),
}

/// What handling a message reports.
pub open spec fn message_text(msg: Message) -> Seq<char> {
    match msg {
        Message::Quit => "Received Quit message"@,
        Message::Move { x, y } => "Moving to coordinates ("@ + int_text(x as int) + ", "@
            + int_text(y as int) + ")"@,
        Message::Write(text) => "Writing message: "@ + text@,
        Message::ChangeColor(r, g, b) => "Changing color to RGB("@ + int_text(r as int) + ", "@
            + int_text(g as int) + ", "@ + int_text(b as int) + ")"@,
    }
}

pub fn process_message(msg: Message) -> (r: String)
    ensures
        r@ == message_text(msg),
{
    match msg {
        Message::Quit => String::from_str("Received Quit message"),
        Message::Move { x, y } => {
            let mut s = String::from_str("Moving to coordinates (");
            s.append(render_int(x as i64).as_str());
            s.append(", ");
            s.append(render_int(y as i64).as_str());
            s.append(")");
            s
        },
        Message::Write(text) => {
            let mut s = String::from_str("Writing message: ");
            s.append(text.as_str());
            s
        },
        Message::ChangeColor(r, g, b) => {
            let mut s = String::from_str("Changing color to RGB(");
            s.append(render_int(r as i64).as_str());
            s.append(", ");
            s.append(render_int(g as i64).as_str());
            s.append(", ");
            s.append(render_int(b as i64).as_str());
            s.append(")");
            s
        },
    }
}

} // verus!
