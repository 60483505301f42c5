//! Random tokens, for invite codes and one-time secrets.

use rand::rngs::ThreadRng;
use rand::Rng;
use vstd::prelude::*;

verus! {

/// `rand::rngs::ThreadRng`: the handle on the generator of the current
/// thread.
#[verifier::external_type_specification]
#[verifier::external_body]
pub struct ExThreadRng(ThreadRng);

/// `rand::rng`: the generator of the current thread. Nothing is claimed of
/// it.
pub assume_specification[ rand::rng ]() -> ThreadRng
;

/// `String::push` of std: appends one character.
pub assume_specification[ String::push ](text: &mut String, ch: char)
    ensures
        final(text)@ == old(text)@.push(ch),
;

/// `byte` is the ASCII code of a digit or of a letter of either case.
pub open spec fn is_alphanumeric_byte(byte: u8) -> bool {
    ||| 0x30 <= byte <= 0x39
    ||| 0x41 <= byte <= 0x5a
    ||| 0x61 <= byte <= 0x7a
}

/// `c` is one of the 62 characters `0-9`, `A-Z`, `a-z`.
pub open spec fn is_alphanumeric(c: char) -> bool {
    ||| '0' <= c <= '9'
    ||| 'A' <= c <= 'Z'
    ||| 'a' <= c <= 'z'
}

/// The text that spells `samples`, one character for each byte.
pub open spec fn spelled(samples: Seq<u8>) -> Seq<char> {
    samples.map_values(|byte: u8| byte as char)
}

/// One sample of the `Alphanumeric` distribution of rand, drawn from `rng`:
/// the ASCII code of a digit or of a letter of either case. Which one is left
/// to chance.
#[verifier::external_body]
fn sample_alphanumeric(rng: &mut ThreadRng) -> (sample: u8)
    ensures
        is_alphanumeric_byte(sample),
{
    rng.sample(rand::distr::Alphanumeric)
}

/// The text that spells `samples`, one character for each byte.
pub fn string_of_samples(samples: &Vec<u8>) -> (text: String)
    ensures
        text@ == spelled(samples@),
{
    let mut text = String::new();
    let mut i: usize = 0;
    while i < samples.len()
        invariant
            i <= samples.len(),
            text@ == spelled(samples@.take(i as int)),
        decreases samples.len() - i,
    {
        text.push(samples[i] as char);
        i += 1;
        assert(spelled(samples@.take(i as int)) =~= spelled(samples@.take(i - 1)).push(
            samples@[i - 1] as char,
        ));
    }
    assert(samples@.take(samples.len() as int) =~= samples@);
    text
}

/// A random text of `length` characters, each one of the 62 characters
/// `0-9`, `A-Z`, `a-z`, drawn from the generator of the current thread.
pub fn random_string(length: usize) -> (token: String)
    ensures
        token@.len() == length,
        forall|i: int| 0 <= i < length ==> is_alphanumeric(#[trigger] token@[i]),
{
    let mut rng = rand::rng();
    let mut samples: Vec<u8> = Vec::new();
    let mut drawn: usize = 0;
    while drawn < length
        invariant
            drawn <= length,
            samples@.len() == drawn,
            forall|i: int| 0 <= i < drawn ==> is_alphanumeric_byte(#[trigger] samples@[i]),
        decreases length - drawn,
    {
        let sample = sample_alphanumeric(&mut rng);
        samples.push(sample);
        drawn += 1;
    }
    let token = string_of_samples(&samples);
    assert forall|i: int| 0 <= i < length implies is_alphanumeric(#[trigger] token@[i]) by {
        assert(is_alphanumeric_byte(samples@[i]));
        assert(token@[i] == samples@[i] as char);
    }
    token
}

} // verus!
