//! The arguments the service control manager passes to a starting service.
//!
//! They arrive as byte strings in no guaranteed encoding and leave as text,
//! one string for each byte string, in the order in which they came.

use vstd::prelude::*;
use vstd::utf8::{decode_utf8, valid_utf8};

verus! {

/// The text that `String::from_utf8_lossy` makes of a byte string: the bytes
/// read as UTF-8, with U+FFFD in place of whatever cannot be read.
pub uninterp spec fn lossy_text(bytes: Seq<u8>) -> Seq<char>;

/// Decodes one byte string with `String::from_utf8_lossy`.
///
/// The result is named, not spelled out: it depends on the bytes alone, but
/// how ill-formed stretches are cut into replacement characters is the
/// standard library's business. What is claimed beyond the name is what the
/// standard library documents of well-formed input: it is decoded as it
/// stands.
#[verifier::external_body]
fn decode_lossy(bytes: &[u8]) -> (text: String)
    ensures
        text@ == lossy_text(bytes@),
        valid_utf8(bytes@) ==> text@ == decode_utf8(bytes@),
{
    String::from_utf8_lossy(bytes).into_owned()
}

/// Turns the manager's argument vector into text: as many strings as there are
/// byte strings, in the same order, each the lossy decoding of the byte string
/// in its place. An entry that is not well-formed UTF-8 is kept, with
/// replacement characters, never left out; a well-formed entry is decoded
/// exactly.
pub fn decode_arguments(native: &Vec<Vec<u8>>) -> (args: Vec<String>)
    ensures
        args@.len() == native@.len(),
        forall|i: int| 0 <= i < native@.len() ==> (#[trigger] args@[i])@ == lossy_text(native@[i]@),
        forall|i: int|
            0 <= i < native@.len() && valid_utf8(native@[i]@) ==> (#[trigger] args@[i])@
                == decode_utf8(native@[i]@),
{
    let mut args: Vec<String> = Vec::new();
    let mut i: usize = 0;
    while i < native.len()
        invariant
            i <= native@.len(),
            args@.len() == i,
            forall|j: int| 0 <= j < i ==> (#[trigger] args@[j])@ == lossy_text(native@[j]@),
            forall|j: int|
                0 <= j < i && valid_utf8(native@[j]@) ==> (#[trigger] args@[j])@ == decode_utf8(
                    native@[j]@,
                ),
        decreases native@.len() - i,
    {
        let text = decode_lossy(native[i].as_slice());
        args.push(text);
        i += 1;
    }
    args
}

} // verus!
