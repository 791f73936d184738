//! Greeting texts built around a user's name.

use vstd::prelude::*;

verus! {

/// The short greeting for `name`: the salutation, a space, the name and an
/// exclamation mark, with no comma.
pub open spec fn hello_text(name: Seq<char>) -> Seq<char> {
    "Привет "@ + name + "!"@
}

/// The welcome line for `name`: the salutation with a comma, the name, and
/// the welcome sentence.
pub open spec fn welcome_text(name: Seq<char>) -> Seq<char> {
    "Привет, "@ + name + "! Добро пожаловать в Rust!"@
}

/// Builds the short greeting for `name` and hands it back; nothing is
/// written anywhere.
pub fn hello_user(name: &str) -> (greeting: String)
    ensures
        greeting@ == hello_text(name@),
{
    String::from_str("Привет ").concat(name).concat("!")
}

/// Builds the welcome line for `name`, without the line break that ends it
/// on a console.
pub fn welcome_line(name: &str) -> (line: String)
    ensures
        line@ == welcome_text(name@),
{
    String::from_str("Привет, ").concat(name).concat("! Добро пожаловать в Rust!")
}

} // verus!
