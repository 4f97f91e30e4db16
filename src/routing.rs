//! Which topic an event goes to.

use vstd::prelude::*;

verus! {

/// The digits of base58, Bitcoin's alphabet.
pub open spec fn base58_alphabet() -> Seq<char> {
    seq!['1', '2', '3', '4', '5', '6', '7', '8', '9', 'A', 'B', 'C', 'D', 'E', 'F', 'G', 'H', 'J', 'K', 'L', 'M', 'N', 'P', 'Q', 'R', 'S', 'T', 'U', 'V', 'W', 'X', 'Y', 'Z', 'a', 'b', 'c', 'd', 'e', 'f', 'g', 'h', 'i', 'j', 'k', 'm', 'n', 'o', 'p', 'q', 'r', 's', 't', 'u', 'v', 'w', 'x', 'y', 'z']
}

/// The bytes as one big-endian number.
pub open spec fn be_value(b: Seq<u8>) -> nat
    decreases b.len(),
{
    if b.len() == 0 {
        0
    } else {
        be_value(b.drop_last()) * 256 + b.last() as nat
    }
}

/// How many zero bytes the bytes begin with.
pub open spec fn leading_zeros(b: Seq<u8>) -> nat
    decreases b.len(),
{
    if b.len() > 0 && b[0] == 0 {
        1 + leading_zeros(b.drop_first())
    } else {
        0
    }
}

/// The base58 digits of `n`, most significant first; none for zero.
pub open spec fn base58_digits(n: nat) -> Seq<char>
    decreases n,
{
    if n == 0 {
        Seq::empty()
    } else {
        base58_digits(n / 58).push(base58_alphabet()[(n % 58) as int])
    }
}

/// The base58 text of a byte string: a '1' for each leading zero byte, then
/// the digits of the bytes' big-endian value.
pub open spec fn base58_text(b: Seq<u8>) -> Seq<char> {
    Seq::new(leading_zeros(b), |i: int| '1') + base58_digits(be_value(b))
}

/// Relies on bs58::encode(..).into_string: the base58 text of the bytes
/// in Bitcoin's alphabet.
#[verifier::external_body]
pub(crate) fn base58(b: &[u8]) -> (r: String)
    ensures
        r@ == base58_text(b@),
{
    bs58::encode(b).into_string()
}

/// The topic of an account update. Unless `publish_separate_program` is
/// set, each owning program gets a topic of its own: the base topic, a
/// dash, and the owner's address in base58.
pub open spec fn account_topic(base: Seq<char>, publish_separate_program: bool, owner_text: Seq<char>) -> Seq<char> {
    if publish_separate_program {
        base
    } else {
        base + seq!['-'] + owner_text
    }
}

/// The topic of an account update, given the owner's address already in
/// base58.
pub fn resolve_account_topic(base: &str, publish_separate_program: bool, owner_text: &str) -> (r: String)
    ensures
        r@ == account_topic(base@, publish_separate_program, owner_text@),
{
    let mut topic = base.to_string();
    if !publish_separate_program {
        proof {
            reveal_strlit("-");
        }
        topic.append("-");
        topic.append(owner_text);
    }
    topic
}

/// The topic of an account update whose owner is `owner`.
pub fn account_topic_for_owner(base: &str, publish_separate_program: bool, owner: &[u8]) -> (r: String)
    ensures
        r@ == account_topic(base@, publish_separate_program, base58_text(owner@)),
{
    let text = base58(owner);
    resolve_account_topic(base, publish_separate_program, text.as_str())
}

} // verus!
