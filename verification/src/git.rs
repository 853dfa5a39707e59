//! How the difference between a branch and the working tree is printed.

use crate::stdin::text_from_utf8;
use vstd::prelude::*;
use vstd::utf8;

verus! {

/// `String::push` puts the character behind the text.
pub assume_specification[ String::push ](s: &mut String, c: char)
    ensures
        final(s)@ == old(s)@.push(c),
;

/// What is printed of a line of a patch: the character that says where the line comes
/// from, and the line. Nothing is printed of a line that is not text.
pub fn patch_line(origin: char, content: Vec<u8>) -> (r: Option<String>)
    ensures
        utf8::valid_utf8(content@) ==> (r matches Some(text) && text@ == seq![origin]
            + utf8::decode_utf8(content@)),
        !utf8::valid_utf8(content@) ==> r is None,
{
    match text_from_utf8(content) {
        Ok(line) => {
            let mut text = String::new();
            text.push(origin);
            text.append(line.as_str());
            Some(text)
        },
        Err(_) => None,
    }
}

} // verus!
