use vstd::prelude::*;
use vstd::string::string_is_ascii;
use vstd::utf8::encode_utf8;

verus! {

/// A fresh string holding "yours".
pub fn gives_ownership() -> (r: String)
    ensures
        r@ == "yours"@,
{
    String::from_str("yours")
}

/// The length of `s` in bytes of its UTF-8 encoding (as a `usize`); for
/// ASCII text, its number of characters.
pub fn calculate_length(s: &String) -> (r: usize)
    ensures
        r == encode_utf8(s@).len() as usize,
        string_is_ascii(s) ==> r == s@.len() as usize,
{
    broadcast use vstd::string::is_ascii_spec_bytes;

    let t: &str = s.as_str();
    proof {
        if string_is_ascii(s) {
            assert(t.is_ascii());
        }
    }
    t.len()
}

/// Appends ", world!" to `s`.
pub fn change_string(s: &mut String)
    ensures
        final(s)@ == old(s)@ + ", world!"@,
{
    s.append(", world!");
}

/// A fresh string holding "no dangle".
pub fn no_dangle() -> (r: String)
    ensures
        r@ == "no dangle"@,
{
    String::from_str("no dangle")
}

} // verus!
