//! Small helpers that move a `String` in and out of a function or read it
//! through a reference.

use vstd::prelude::*;
use vstd::string::StringExecFns;
use vstd::utf8::encode_utf8;

verus! {

/// Creates a fresh string and moves it out to the caller.
pub fn gives_ownership() -> (r: String)
    ensures
        r@ == "yours"@,
{
    let some_string = String::from_str("yours");
    some_string
}

/// Takes a string by value and hands the very same value back.
pub fn takes_and_gives_back(a_string: String) -> (r: String)
    ensures
        r == a_string,
{
    a_string
}

/// Reads the byte length of a string through a shared reference.
pub fn calculate_length(s: &String) -> (r: usize)
    ensures
        r == encode_utf8(s@).len(),
{
    s.as_str().as_bytes().len()
}

/// Builds a string locally and returns it by value, so that nothing dangles.
pub fn dangle() -> (r: String)
    ensures
        r@ == "hello"@,
{
    let s = String::from_str("hello");
    s
}

} // verus!
