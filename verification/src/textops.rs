//! Trusted wrappers around text conversions from std.

use vstd::prelude::*;

verus! {

/// The text that `String::from_utf8_lossy` decodes the given bytes to.
pub uninterp spec fn lossy_utf8(bytes: Seq<u8>) -> Seq<char>;

/// The text that `str::to_lowercase` maps the given text to.
pub uninterp spec fn lower_of(s: Seq<char>) -> Seq<char>;

/// Relies on `String::from_utf8_lossy`: the result depends on the bytes
/// alone, and bytes that are all ASCII decode to themselves.
#[verifier::external_body]
pub fn utf8_lossy(data: &[u8]) -> (r: String)
    ensures
        r@ == lossy_utf8(data@),
        (forall|i: int| 0 <= i < data@.len() ==> data@[i] < 128) ==> (r@.len() == data@.len()
            && (forall|i: int| 0 <= i < data@.len() ==> r@[i] == data@[i] as char)),
{
    String::from_utf8_lossy(data).into_owned()
}

/// Relies on `String` collecting an iterator of `char`: the collected
/// string holds exactly the characters of the vector, in order.
#[verifier::external_body]
pub fn chars_to_string(v: &Vec<char>) -> (r: String)
    ensures
        r@ == v@,
{
    v.iter().collect()
}

/// Relies on `str::to_lowercase`: the result depends on the characters
/// alone, and an empty string stays empty.
#[verifier::external_body]
pub fn lowercase(s: &str) -> (r: String)
    ensures
        r@ == lower_of(s@),
        s@.len() == 0 ==> r@.len() == 0,
{
    s.to_lowercase()
}

} // verus!
