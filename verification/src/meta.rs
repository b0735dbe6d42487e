//! The description of the interpreter build that a session starts with.

use vstd::prelude::*;
use vstd::string::StringExecFns;

verus! {

/// The text that an answer of the interpreter holds; empty where the
/// interpreter gave none.
pub open spec fn text_or_empty(answer: Option<String>) -> Seq<char> {
    match answer {
        Some(text) => text@,
        None => Seq::empty(),
    }
}

/// The build description: the interpreter's description on the first line
/// and the compiler's version, in square brackets, on the second.
pub open spec fn spec_build_info(description: Seq<char>, compiler: Seq<char>) -> Seq<char> {
    description + "\n["@ + compiler + "]"@
}

/// Describe the build of an interpreter.
///
/// `description` is what the interpreter gives for `RUBY_DESCRIPTION`, and
/// `compiler` what it gives for `ARTICHOKE_COMPILER_VERSION`. An answer that
/// could not be had counts as empty.
pub fn build_info(description: Option<String>, compiler: Option<String>) -> (info: String)
    ensures
        info@ == spec_build_info(text_or_empty(description), text_or_empty(compiler)),
{
    let mut info = match description {
        Some(text) => text,
        None => String::new(),
    };
    info.append("\n[");
    match &compiler {
        Some(text) => {
            info.append(text.as_str());
        },
        None => {},
    }
    info.append("]");
    info
}

} // verus!
