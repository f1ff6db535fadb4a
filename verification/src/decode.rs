//! Percent-decoding of request paths.

use vstd::prelude::*;

verus! {

/// The text with every `%` and two hexadecimal digits replaced by the byte
/// they name, and the bytes then read as UTF-8, invalid sequences replaced.
pub uninterp spec fn percent_decoded(text: Seq<char>) -> Seq<char>;

/// `url_escape::decode_to_string` appends the percent-decoded text to
/// `output`. Text without a `%` holds no escape and is appended as it is.
#[verifier::external_body]
fn decode_to_string(text: &str, output: &mut String)
    ensures
        final(output)@ == old(output)@ + percent_decoded(text@),
        !text@.contains('%') ==> final(output)@ == old(output)@ + text@,
{
    url_escape::decode_to_string(text, output);
}

/// The percent-decoded form of a request path. Escapes that are not valid
/// pass through; decoding never fails.
pub fn decode_path(path: &str) -> (decoded: String)
    ensures
        decoded@ == percent_decoded(path@),
        !path@.contains('%') ==> decoded@ == path@,
{
    let mut decoded = String::new();
    decode_to_string(path, &mut decoded);
    decoded
}

} // verus!
