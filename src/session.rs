use vstd::prelude::*;

verus! {

/// Whether `c` is a lowercase hexadecimal digit.
pub open spec fn is_lower_hex(c: char) -> bool {
    ('0' <= c && c <= '9') || ('a' <= c && c <= 'f')
}

/// Whether `s` is a UUID in hyphenated form: 36 characters, groups of 8, 4,
/// 4, 4 and 12 lowercase hexadecimal digits joined by hyphens.
pub open spec fn is_hyphenated_uuid(s: Seq<char>) -> bool {
    &&& s.len() == 36
    &&& forall|i: int|
        0 <= i < 36 ==> if i == 8 || i == 13 || i == 18 || i == 23 {
            s[i] == '-'
        } else {
            is_lower_hex(#[trigger] s[i])
        }
}

/// Relies on uuid::Uuid::new_v4 and its `Display`, which writes the
/// hyphenated form in lowercase hexadecimal.
#[verifier::external_body]
pub(crate) fn random_uuid() -> (r: String)
    ensures
        is_hyphenated_uuid(r@),
{
    uuid::Uuid::new_v4().to_string()
}

/// The session name built from the identifier `id`: `sidecar-` then `id`.
pub fn session_name_for(id: &str) -> (r: String)
    ensures
        r@ == "sidecar-"@ + id@,
{
    let mut s = String::from_str("sidecar-");
    s.append(id);
    s
}

/// A fresh session name: `sidecar-` then a random UUID in hyphenated form.
pub fn new_session_name() -> (r: String)
    ensures
        r@.len() == 44,
        r@.subrange(0, 8) == "sidecar-"@,
        is_hyphenated_uuid(r@.subrange(8, 44)),
{
    let id = random_uuid();
    proof {
        reveal_strlit("sidecar-");
    }
    let r = session_name_for(id.as_str());
    assert(r@.subrange(0, 8) =~= "sidecar-"@);
    assert(r@.subrange(8, 44) =~= id@);
    r
}

} // verus!
