//! What only the machine can give: its host name and fresh random ids.

use vstd::prelude::*;

verus! {

/// Whether `c` is a digit or one of `a` to `f`.
pub open spec fn is_lower_hex_char(c: char) -> bool {
    ('0' <= c && c <= '9') || ('a' <= c && c <= 'f')
}

/// Whether `text` has the shape in which a uuid is printed: 36 characters,
/// `-` at the positions 8, 13, 18 and 23, and lower-case hex digits elsewhere.
pub open spec fn is_hyphenated_uuid(text: Seq<char>) -> bool {
    &&& text.len() == 36
    &&& forall|i: int|
        0 <= i < 36 ==> if i == 8 || i == 13 || i == 18 || i == 23 {
            #[trigger] text[i] == '-'
        } else {
            is_lower_hex_char(text[i])
        }
}

/// `uuid::Uuid::new_v4`, printed: a fresh random uuid in its hyphenated
/// lower-case form. The digits are random; only the shape is claimed. The
/// call ends the program where the operating system has no random bytes to
/// give.
#[verifier::external_body]
pub(crate) fn fresh_uuid_text() -> (text: String)
    ensures
        is_hyphenated_uuid(text@),
{
    uuid::Uuid::new_v4().to_string()
}

/// `hostname::get`: the host name of the machine, where it has one that is
/// UTF-8. Nothing is claimed of the name.
#[verifier::external_body]
pub(crate) fn machine_hostname() -> Option<String> {
    hostname::get().ok().and_then(|name| name.into_string().ok())
}

} // verus!
