//! What the scanner takes from the standard library on trust: the whitespace
//! test on characters and appending a character to a `String`. Nothing here
//! is proved; each contract restates the standard library's documentation.

use vstd::prelude::*;

verus! {

/// Whether `c` is whitespace as `char::is_whitespace` classifies it, that is,
/// whether `c` has the Unicode property `White_Space`. The set is fixed by
/// the Unicode tables that the standard library was built with and is not
/// spelled out here.
pub uninterp spec fn unicode_whitespace(c: char) -> bool;

/// `char::is_whitespace` is a function of the character alone; its result is
/// what [`unicode_whitespace`] names.
pub assume_specification[ char::is_whitespace ](c: char) -> (r: bool)
    ensures
        r == unicode_whitespace(c),
;

/// `String::push` appends `ch` to the end of the string and leaves the rest
/// of it as it was.
pub assume_specification[ std::string::String::push ](s: &mut std::string::String, ch: char)
    ensures
        final(s)@ == old(s)@.push(ch),
;

} // verus!
