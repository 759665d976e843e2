//! Secret text, kept out of sight in a `secrecy::Secret`.
//!
//! Everything here is believed, not proved: the type hides a value of another
//! crate, and the two functions call into that crate.

use secrecy::ExposeSecret;
use secrecy::Secret;
use vstd::prelude::*;

verus! {

/// A text that must not be printed or logged, held in a
/// `secrecy::Secret<String>`.
///
/// Its debug rendering is the one of the value inside, which shows no
/// character of the text. Verus sees nothing of the field.
#[verifier::external_body]
#[derive(Debug)]
pub struct SecretText {
    inner: Secret<String>,
}

/// The text inside a [`SecretText`].
pub uninterp spec fn secret_text(secret: SecretText) -> Seq<char>;

/// Calls `secrecy::Secret::new`, which moves the given value into the secret
/// unchanged: the text inside is `text`.
#[verifier::external_body]
pub(crate) fn seal(text: String) -> (secret: SecretText)
    ensures
        secret_text(secret) == text@,
{
    SecretText { inner: Secret::new(text) }
}

/// Calls `ExposeSecret::expose_secret` of `secrecy::Secret`, which gives a
/// reference to the value inside: the result is the text inside.
#[verifier::external_body]
pub(crate) fn expose(secret: &SecretText) -> (text: &str)
    ensures
        text@ == secret_text(*secret),
{
    secret.inner.expose_secret().as_str()
}

} // verus!
