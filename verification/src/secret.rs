//! Credential preparer: the one-way step a plaintext password must pass
//! through before anything is persisted.

use vstd::prelude::*;
use vstd::string::StringExecFns;

verus! {

/// The stored-secret representation of a plaintext password.
pub open spec fn prepared_secret(password: Seq<char>) -> Seq<char> {
    "hashed_"@ + password
}

/// Law: the stored secret is never bit-equal to the submitted plaintext,
/// whatever the password.
pub proof fn lemma_secret_never_plaintext(password: Seq<char>)
    ensures
        prepared_secret(password) != password,
{
    reveal_strlit("hashed_");
    assert(prepared_secret(password).len() == 7 + password.len());
}

/// Transform a plaintext password into its stored-secret form; the result is
/// never the plaintext itself.
pub fn prepare_secret(password: &str) -> (secret: String)
    ensures
        secret@ == prepared_secret(password@),
        secret@ != password@,
{
    let mut secret = String::from_str("hashed_");
    secret.append(password);
    proof {
        lemma_secret_never_plaintext(password@);
    }
    secret
}

} // verus!
