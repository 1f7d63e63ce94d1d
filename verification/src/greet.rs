//! The messages the two greeting entry points hand to the shared greeting
//! function of `brutil`.
//!
//! Each binding prepends a fixed host-naming phrase to the caller's name and
//! delegates the combined message to `brutil::greet_rs`. Building the message
//! is the bindings' whole contribution and is verified here; the delegation
//! itself is host glue and stands in the unverified binding layer.

use vstd::prelude::*;
use vstd::string::StringExecFns;

verus! {

/// The message the scripting-runtime binding hands to the greeting function.
pub open spec fn py_message(name: Seq<char>) -> Seq<char> {
    "via Python, "@ + name
}

/// The message the WebAssembly binding hands to the greeting function.
pub open spec fn wasm_message(name: Seq<char>) -> Seq<char> {
    "via WebAssembly, "@ + name
}

/// The scripting-runtime greeting message: the caller's name behind the
/// phrase naming that host.
pub fn py_greet_message(name: &str) -> (r: String)
    ensures
        r@ == py_message(name@),
{
    String::from_str("via Python, ").concat(name)
}

/// The WebAssembly greeting message: the caller's name behind the phrase
/// naming that host.
pub fn wasm_greet_message(name: &str) -> (r: String)
    ensures
        r@ == wasm_message(name@),
{
    String::from_str("via WebAssembly, ").concat(name)
}

/// The scripting-runtime greeting holds no state: the message it hands over
/// is a function of the caller's name alone, so two calls with the same name
/// hand over identical messages.
pub proof fn lemma_py_message_deterministic(name: Seq<char>, r1: Seq<char>, r2: Seq<char>)
    requires
        r1 == py_message(name),
        r2 == py_message(name),
    ensures
        r1 == r2,
{
}

/// The WebAssembly greeting holds no state: the message it hands over is a
/// function of the caller's name alone, so two calls with the same name hand
/// over identical messages.
pub proof fn lemma_wasm_message_deterministic(name: Seq<char>, r1: Seq<char>, r2: Seq<char>)
    requires
        r1 == wasm_message(name),
        r2 == wasm_message(name),
    ensures
        r1 == r2,
{
}

} // verus!
