//! The bytes of a file as text.

use vstd::prelude::*;
use vstd::string::StringSliceAdditionalSpecFns;
use vstd::utf8::{
    decode_utf8, decode_utf8_encode_utf8, encode_utf8, encode_utf8_decode_utf8,
    encode_utf8_valid_utf8, valid_utf8,
};

verus! {

/// Calls std's `std::str::from_utf8`.
///
/// Believed of std: it accepts `bytes` exactly where they are valid UTF-8, and the text
/// that it gives is those very bytes.
#[verifier::external_body]
fn from_utf8<'a>(bytes: &'a [u8]) -> (text: Option<&'a str>)
    ensures
        text is Some <==> valid_utf8(bytes@),
        text matches Some(held) ==> held.spec_bytes() == bytes@,
{
    match std::str::from_utf8(bytes) {
        Ok(held) => Some(held),
        Err(_) => None,
    }
}

/// The text that `bytes` encode, or `None` where they are not valid UTF-8.
pub fn text_of<'a>(bytes: &'a [u8]) -> (text: Option<&'a str>)
    ensures
        match text {
            Some(held) => valid_utf8(bytes@) && held@ == decode_utf8(bytes@),
            None => !valid_utf8(bytes@),
        },
{
    let text = from_utf8(bytes);
    proof {
        if let Some(held) = text {
            encode_utf8_decode_utf8(held@);
        }
    }
    text
}

/// Two texts in a row are encoded as their two encodings in a row.
pub proof fn lemma_encode_in_a_row(first: Seq<char>, second: Seq<char>)
    ensures
        encode_utf8(first + second) == encode_utf8(first) + encode_utf8(second),
    decreases first.len(),
{
    if first.len() == 0 {
        assert(first + second =~= second);
    } else {
        lemma_encode_in_a_row(first.drop_first(), second);
        assert((first + second).drop_first() =~= first.drop_first() + second);
        assert(encode_utf8(first + second) =~= encode_utf8(first) + encode_utf8(second));
    }
}

/// A file that is text stays text when the bytes of a text are appended to it, and reads
/// as what it held before and then what was added.
pub proof fn lemma_append_keeps_text(bytes: Seq<u8>, added: Seq<char>)
    requires
        valid_utf8(bytes),
    ensures
        valid_utf8(bytes + encode_utf8(added)),
        decode_utf8(bytes + encode_utf8(added)) == decode_utf8(bytes) + added,
{
    let held = decode_utf8(bytes);
    decode_utf8_encode_utf8(bytes);
    lemma_encode_in_a_row(held, added);
    encode_utf8_valid_utf8(held + added);
    encode_utf8_decode_utf8(held + added);
}

} // verus!
