//! Confirmation tokens.

use rand::distributions::Alphanumeric;
use rand::rngs::ThreadRng;
use rand::Rng;
use vstd::prelude::*;

verus! {

/// Number of characters in a confirmation token.
pub const TOKEN_LENGTH: usize = 25;

/// An ASCII letter or digit.
pub open spec fn is_alphanumeric(c: char) -> bool {
    ('a' <= c && c <= 'z') || ('A' <= c && c <= 'Z') || ('0' <= c && c <= '9')
}

/// What every issued confirmation token looks like: exactly
/// [`TOKEN_LENGTH`] characters, each an ASCII letter or digit.
pub open spec fn is_subscription_token(s: Seq<char>) -> bool {
    &&& s.len() == TOKEN_LENGTH
    &&& forall|i: int| 0 <= i < s.len() ==> is_alphanumeric(#[trigger] s[i])
}

/// The thread-local generator of `rand`, seeded by the operating system.
#[verifier::external_type_specification]
#[verifier::external_body]
pub struct ExThreadRng(ThreadRng);

/// `rand::thread_rng` hands out the calling thread's generator. Nothing is
/// claimed of it.
pub assume_specification[ rand::thread_rng ]() -> (rng: ThreadRng)
;

/// `Rng::sample` with the `Alphanumeric` distribution draws one byte from
/// `A-Z`, `a-z` and `0-9`. Which one is left open; only membership in that
/// alphabet is claimed.
#[verifier::external_body]
fn sample_alphanumeric(rng: &mut ThreadRng) -> (byte: u8)
    ensures
        is_alphanumeric(byte as char),
{
    rng.sample(Alphanumeric)
}

/// `String::push` appends one character to the end of the string.
#[verifier::external_body]
fn push_char(text: &mut String, c: char)
    ensures
        final(text)@ == old(text)@.push(c),
{
    text.push(c)
}

/// The text that `bytes` spell, one character for each byte.
pub open spec fn spelled(bytes: Seq<u8>) -> Seq<char> {
    Seq::new(bytes.len(), |i: int| bytes[i] as char)
}

/// Spells `bytes` as text, one character for each byte.
pub fn token_from_bytes(bytes: &Vec<u8>) -> (token: String)
    ensures
        token@ == spelled(bytes@),
{
    let mut token = String::new();
    let mut i: usize = 0;
    while i < bytes.len()
        invariant
            i <= bytes@.len(),
            token@ == spelled(bytes@.take(i as int)),
        decreases bytes@.len() - i,
    {
        push_char(&mut token, bytes[i] as char);
        proof {
            assert(spelled(bytes@.take(i + 1)) == spelled(bytes@.take(i as int)).push(
                bytes@[i as int] as char,
            ));
        }
        i += 1;
    }
    proof {
        assert(bytes@.take(i as int) == bytes@);
    }
    token
}

/// Draws a fresh confirmation token: [`TOKEN_LENGTH`] characters, each
/// sampled from the ASCII letters and digits by the thread-local generator.
///
/// No attempt is made to avoid tokens that were issued before.
pub fn generate_subscription_token() -> (token: String)
    ensures
        is_subscription_token(token@),
{
    let mut rng = rand::thread_rng();
    let mut bytes: Vec<u8> = Vec::new();
    while bytes.len() < TOKEN_LENGTH
        invariant
            bytes@.len() <= TOKEN_LENGTH,
            forall|i: int| 0 <= i < bytes@.len() ==> is_alphanumeric(#[trigger] bytes@[i] as char),
        decreases TOKEN_LENGTH - bytes@.len(),
    {
        bytes.push(sample_alphanumeric(&mut rng));
    }
    token_from_bytes(&bytes)
}

} // verus!
