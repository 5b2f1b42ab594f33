use vstd::prelude::*;
use rand::distributions::{Alphanumeric, DistString};

verus! {

/// An ASCII letter or digit.
pub open spec fn is_alphanumeric_ascii(c: char) -> bool {
    ||| ('A' <= c && c <= 'Z')
    ||| ('a' <= c && c <= 'z')
    ||| ('0' <= c && c <= '9')
}

/// A random string of `len` characters drawn from the ASCII letters and
/// digits (rand's `Alphanumeric::sample_string` with the thread's
/// generator). Which characters come out is chance; that there are `len`
/// of them, each a letter or digit, is what the distribution documents.
#[verifier::external_body]
fn sample_alphanumeric(len: usize) -> (s: String)
    ensures
        s@.len() == len,
        forall|i: int| 0 <= i < s@.len() ==> is_alphanumeric_ascii(#[trigger] s@[i]),
{
    Alphanumeric.sample_string(&mut rand::thread_rng(), len)
}

/// A random string of `length` ASCII letters and digits.
pub fn generate_random_string(length: u64) -> (r: Option<String>)
    ensures
        r matches Some(s) && s@.len() == length as usize
            && forall|i: int| 0 <= i < s@.len() ==> is_alphanumeric_ascii(#[trigger] s@[i]),
{
    Some(sample_alphanumeric(length as usize))
}

} // verus!
