use vstd::prelude::*;

verus! {

/// Relies on uuid's Uuid::new_v4 and its hyphenated formatting: a random
/// version-4 UUID rendered as 36 characters. The value is random, so
/// nothing relates two calls; callers that need freshness re-check against
/// the identifiers they have already used.
#[verifier::external_body]
pub fn gen_uuid() -> (r: String)
    ensures
        r@.len() == 36,
{
    uuid::Uuid::new_v4().hyphenated().to_string()
}

} // verus!
