//! Verification-code generator: a fresh six-character token over the
//! 62-character alphanumeric alphabet, drawn from an outside randomness
//! source one character at a time.

use vstd::prelude::*;

verus! {

/// A code character: an ASCII letter (either case) or a decimal digit.
pub open spec fn is_code_char(c: char) -> bool {
    ||| 'a' <= c && c <= 'z'
    ||| 'A' <= c && c <= 'Z'
    ||| '0' <= c && c <= '9'
}

/// A well-formed verification code: exactly six characters, each from the
/// 62-character alphanumeric alphabet.
pub open spec fn valid_code(s: Seq<char>) -> bool {
    &&& s.len() == 6
    &&& forall|i: int| 0 <= i < s.len() ==> is_code_char(s[i])
}

/// Relies on rand: sampling the `Alphanumeric` distribution from `thread_rng`
/// yields one byte drawn from a-z, A-Z, 0-9. Nothing is assumed about which.
#[verifier::external_body]
fn sample_code_char() -> (c: char)
    ensures
        is_code_char(c),
{
    char::from(rand::Rng::sample(&mut rand::thread_rng(), rand::distributions::Alphanumeric))
}

/// Relies on String::push: appends exactly the given character.
#[verifier::external_body]
fn push_char(s: &mut String, c: char)
    ensures
        final(s)@ == old(s)@.push(c),
{
    s.push(c)
}

/// Generate a fresh verification code: always six alphanumeric characters,
/// whatever the randomness source returns.
pub fn generate_code() -> (code: String)
    ensures
        valid_code(code@),
{
    let mut code = String::new();
    let mut i: usize = 0;
    while i < 6
        invariant
            i <= 6,
            code@.len() == i,
            forall|j: int| 0 <= j < code@.len() ==> is_code_char(code@[j]),
        decreases 6 - i,
    {
        let c = sample_code_char();
        push_char(&mut code, c);
        i = i + 1;
    }
    code
}

} // verus!
