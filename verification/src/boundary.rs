//! Where the boundary of a form comes from.

use rand::distributions::Alphanumeric;
use rand::rngs::SmallRng;
use rand::{Rng, SeedableRng};
use vstd::prelude::*;

verus! {

/// A `BoundaryGenerator` is a policy to generate a string to use as a part
/// boundary.
///
/// The default generator builds a random string of 6 ASCII letters and
/// digits. Where a longer or a fixed boundary is wanted, implement this
/// trait and hand the implementation to `Form::new`. Nothing checks that
/// the boundary stays out of the payloads: that is the concern of whoever
/// chooses it.
pub trait BoundaryGenerator {
    /// Generates a String to use as a boundary.
    fn generate_boundary() -> String;
}

/// The default policy: 6 random characters out of `A-Z`, `a-z` and `0-9`.
pub struct RandomAsciiGenerator;

/// The number of characters in a boundary of the default policy.
pub const RANDOM_BOUNDARY_LEN: usize = 6;

/// Whether a character is an ASCII letter or digit.
pub open spec fn is_alphanumeric(c: char) -> bool {
    let code = c as u32;
    ||| 0x30 <= code <= 0x39
    ||| 0x41 <= code <= 0x5a
    ||| 0x61 <= code <= 0x7a
}

/// Whether a text consists of ASCII letters and digits only.
pub open spec fn is_alphanumeric_text(text: Seq<char>) -> bool {
    forall|i: int| 0 <= i < text.len() ==> is_alphanumeric(#[trigger] text[i])
}

#[verifier::external_type_specification]
#[verifier::external_body]
pub struct ExSmallRng(SmallRng);

/// `SeedableRng::from_entropy` for `SmallRng`: a generator seeded by the
/// operating system. Nothing is known of the generator that comes back. The
/// call does not return where the system has no entropy to give.
#[verifier::external_body]
fn entropy_rng() -> SmallRng {
    SmallRng::from_entropy()
}

/// `Rng::sample` with the `Alphanumeric` distribution, which draws one byte
/// out of the 62 of `A-Z`, `a-z` and `0-9`. Which one comes is left open.
#[verifier::external_body]
fn sample_alphanumeric(rng: &mut SmallRng) -> (byte: u8)
    ensures
        is_alphanumeric(byte as char),
{
    rng.sample(Alphanumeric)
}

/// `String::push`: appends one character.
#[verifier::external_body]
fn push_char(text: &mut String, c: char)
    ensures
        final(text)@ == old(text)@.push(c),
{
    text.push(c)
}

/// The text whose characters are the given bytes, each taken as the
/// character of the same code.
pub fn boundary_from(drawn: &Vec<u8>) -> (boundary: String)
    ensures
        boundary@ == drawn@.map_values(|byte: u8| byte as char),
{
    let mut boundary = String::new();
    let mut n: usize = 0;
    while n < drawn.len()
        invariant
            n <= drawn.len(),
            boundary@ == drawn@.take(n as int).map_values(|byte: u8| byte as char),
        decreases drawn.len() - n,
    {
        push_char(&mut boundary, drawn[n] as char);
        assert(drawn@.take(n + 1) == drawn@.take(n as int).push(drawn@[n as int]));
        n = n + 1;
    }
    assert(drawn@.take(n as int) == drawn@);
    boundary
}

impl BoundaryGenerator for RandomAsciiGenerator {
    /// Creates a boundary of 6 ASCII characters: draws 6 letters or digits
    /// from a generator that the operating system has seeded, and returns
    /// them as they were drawn.
    fn generate_boundary() -> (boundary: String)
        ensures
            boundary@.len() == RANDOM_BOUNDARY_LEN,
            is_alphanumeric_text(boundary@),
    {
        let mut rng = entropy_rng();
        let mut drawn: Vec<u8> = Vec::new();
        while drawn.len() < RANDOM_BOUNDARY_LEN
            invariant
                drawn.len() <= RANDOM_BOUNDARY_LEN,
                forall|i: int| 0 <= i < drawn.len() ==> is_alphanumeric(#[trigger] drawn[i] as char),
            decreases RANDOM_BOUNDARY_LEN - drawn.len(),
        {
            let byte = sample_alphanumeric(&mut rng);
            drawn.push(byte);
        }
        boundary_from(&drawn)
    }
}

} // verus!
