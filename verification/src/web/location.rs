//! The location of the page.

use crate::web::Fatal;
use vstd::prelude::*;
use vstd::string::StringExecFns;

verus! {

/// The location of the page that the playground runs in, as a string.
#[derive(Debug)]
pub struct Location(pub String);

impl Location {
    /// The name of the class that the interpreter knows a location by.
    pub fn ruby_type_name() -> (name: &'static str)
        ensures
            name@ == "Artichoke::Web::Location"@,
    {
        "Artichoke::Web::Location"
    }

    /// The message of the failure that `hash` ends with, for what the host
    /// gave: nothing where it gave the fragment of the location.
    pub open spec fn spec_hash_failure(lookup: Option<Result<String, ()>>) -> Option<Seq<char>> {
        match lookup {
            Some(Ok(_)) => None,
            Some(Err(_)) => Some("SecurityError"@),
            None => Some("No location"@),
        }
    }

    /// The fragment of the page's location, or the failure to get it.
    ///
    /// `lookup` is what the host gave: nothing where the page has no
    /// location, and an error where the host did not let the fragment be
    /// read.
    pub fn hash(lookup: Option<Result<String, ()>>) -> (hash: Result<String, Fatal>)
        ensures
            match hash {
                Ok(value) => lookup == Some(Ok::<String, ()>(value)),
                Err(fatal) => Self::spec_hash_failure(lookup) == Some(fatal.message@),
            },
    {
        match lookup {
            Some(Ok(value)) => Ok(value),
            Some(Err(_)) => Err(Fatal { message: String::from_str("SecurityError") }),
            None => Err(Fatal { message: String::from_str("No location") }),
        }
    }
}

} // verus!
