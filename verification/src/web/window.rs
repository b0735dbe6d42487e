//! The window of the page.

use crate::web::location::Location;
use crate::web::Fatal;
use vstd::prelude::*;
use vstd::string::StringExecFns;

verus! {

/// The window that the playground runs in.
#[derive(Debug)]
pub struct Window;

impl Window {
    /// The name of the module that the interpreter knows the window by.
    pub fn ruby_type_name() -> (name: &'static str)
        ensures
            name@ == "Artichoke::Web::Window"@,
    {
        "Artichoke::Web::Window"
    }

    /// The location that the window hands to the interpreter.
    pub fn location() -> (location: Location)
        ensures
            location.0@ == "phantom"@,
    {
        Location(String::from_str("phantom"))
    }

    /// The failure that `location` ends with when the location cannot be
    /// turned into a value of the interpreter. `error` is the display text
    /// of what went wrong.
    pub fn location_failure(error: &str) -> (fatal: Fatal)
        ensures
            fatal.message@ == "Failed to serialize Rust Location into Ruby: "@ + error@,
    {
        let mut message = String::from_str("Failed to serialize Rust Location into Ruby: ");
        message.append(error);
        Fatal { message }
    }
}

} // verus!
