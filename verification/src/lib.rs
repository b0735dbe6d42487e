//! The Artichoke Wasm playground.
//!
//! A scripting runtime lives inside a sandboxed module; the host that drives
//! it can only hand small integers across the boundary. This crate holds the
//! parts of the playground that decide what those integers mean.

use vstd::prelude::*;

pub mod emscripten;
pub mod ffi;
pub mod interpreter;
pub mod meta;
pub mod string;
pub mod web;

verus! {

/// Filename for inline code executed on the playground frontend via the
/// embedded code editor: the bytes of `(playground)`.
///
/// ```console
/// > __FILE__
/// => "(playground)"
/// ```
pub const REPL_FILENAME: [u8; 12] = [
    0x28, 0x70, 0x6c, 0x61, 0x79, 0x67, 0x72, 0x6f, 0x75, 0x6e, 0x64, 0x29,
];

/// The filename holds no NUL byte, so it can stand where a C string is
/// asked for.
pub proof fn lemma_repl_filename_has_no_nul()
    ensures
        forall|i: int| 0 <= i < REPL_FILENAME@.len() ==> REPL_FILENAME@[i] != 0,
{
}

} // verus!
