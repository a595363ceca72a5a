use vstd::prelude::*;

verus! {

/// The length of an identifier made by `fresh_id`.
pub const ID_LEN: usize = 36;

/// Relies on `uuid::Uuid::new_v4` for a random version-4 UUID, and on the
/// `Display` impl of `uuid::Uuid`, which writes it in hyphenated form:
/// 32 lowercase hexadecimal digits and 4 hyphens, 36 characters in all.
/// `new_v4` panics only when the operating system cannot supply random bytes.
#[verifier::external_body]
pub(crate) fn fresh_id() -> (r: String)
    ensures
        r@.len() == ID_LEN,
{
    uuid::Uuid::new_v4().to_string()
}

} // verus!
