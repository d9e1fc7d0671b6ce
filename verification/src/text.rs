//! String helpers: a greeting builder, the first-word scanner and the
//! longer-of-two chooser.

use vstd::prelude::*;
use vstd::string::StringExecFns;
use vstd::utf8::encode_utf8;

verus! {

/// The greeting built for a caller-supplied name: `Hello <name>!`.
pub open spec fn greeting_view(name: Seq<char>) -> Seq<char> {
    "Hello "@ + name + "!"@
}

/// Builds the greeting for `name`, embedding the name verbatim.
pub fn greeting(name: &str) -> (r: String)
    ensures
        r@ == greeting_view(name@),
{
    let mut out = String::from_str("Hello ");
    out.append(name);
    out.append("!");
    out
}

/// Returns the byte index of the first space in `s`, or the byte length of
/// `s` when it holds no space.
pub fn first_word(s: &String) -> (r: usize)
    ensures
        ({
            let bytes = encode_utf8(s@);
            &&& r <= bytes.len()
            &&& forall|j: int| 0 <= j < r ==> bytes[j] != 32u8
            &&& r < bytes.len() ==> bytes[r as int] == 32u8
        }),
{
    let bytes: &[u8] = s.as_str().as_bytes();
    let mut i: usize = 0;
    while i < bytes.len()
        invariant
            bytes@ == encode_utf8(s@),
            i <= bytes@.len(),
            forall|j: int| 0 <= j < i ==> bytes@[j] != 32u8,
        decreases bytes@.len() - i,
    {
        if bytes[i] == 32u8 {
            return i;
        }
        i = i + 1;
    }
    bytes.len()
}

/// Returns whichever of the two strings is longer in bytes; on a tie, the
/// second.
pub fn longest<'a>(x: &'a str, y: &'a str) -> (r: &'a str)
    ensures
        r@ == (if encode_utf8(x@).len() > encode_utf8(y@).len() {
            x@
        } else {
            y@
        }),
{
    if x.as_bytes().len() > y.as_bytes().len() {
        x
    } else {
        y
    }
}

} // verus!
