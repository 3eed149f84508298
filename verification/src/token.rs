//! The token a caller presents, and how it is compared with a secret.

use vstd::prelude::*;
use crate::status::Failure;

verus! {

/// What a call carries under the name of a token header.
#[derive(Clone, Debug, PartialEq, Eq)]
pub enum TokenHeader {
    /// No such header.
    Missing,
    /// A header whose value is no text.
    Unreadable,
    /// The token.
    Value(String),
}

/// The token of a call, or why it has none.
pub fn read_token(header: TokenHeader) -> (token: Result<String, Failure>)
    ensures
        match header {
            TokenHeader::Missing => token == Err::<String, Failure>(Failure::MissingToken),
            TokenHeader::Unreadable => token == Err::<String, Failure>(Failure::UnreadableToken),
            TokenHeader::Value(value) => token == Ok::<String, Failure>(value),
        },
{
    match header {
        TokenHeader::Missing => Err(Failure::MissingToken),
        TokenHeader::Unreadable => Err(Failure::UnreadableToken),
        TokenHeader::Value(value) => Ok(value),
    }
}

/// Whether two byte strings are the same. Where they are equally long every
/// byte of both is read, whatever the bytes are, so the time taken does not
/// tell where they differ.
pub fn constant_time_eq(left: &[u8], right: &[u8]) -> (same: bool)
    ensures
        same == (left@ == right@),
{
    if left.len() != right.len() {
        return false;
    }
    let mut difference: u8 = 0;
    let mut at: usize = 0;
    proof {
        assert(left@.take(0) =~= right@.take(0));
    }
    while at < left.len()
        invariant
            left@.len() == right@.len(),
            at <= left@.len(),
            (difference == 0) == (left@.take(at as int) == right@.take(at as int)),
        decreases left@.len() - at,
    {
        let x: u8 = left[at];
        let y: u8 = right[at];
        let ghost earlier = difference;
        difference = difference | (x ^ y);
        proof {
            assert((earlier | (x ^ y)) == 0 <==> (earlier == 0 && x == y)) by (bit_vector);
            let l = left@.take(at as int + 1);
            let r = right@.take(at as int + 1);
            assert(l.drop_last() =~= left@.take(at as int));
            assert(r.drop_last() =~= right@.take(at as int));
            assert(l.last() == x && r.last() == y);
            if earlier == 0 && x == y {
                assert(l =~= l.drop_last().push(x));
                assert(r =~= r.drop_last().push(y));
            }
        }
        at += 1;
    }
    proof {
        assert(left@.take(at as int) =~= left@);
        assert(right@.take(at as int) =~= right@);
    }
    difference == 0
}

/// Whether the token a caller presents is the shared secret, compared in
/// constant time.
pub fn token_matches(given: &String, secret: &String) -> (same: bool)
    ensures
        same == (given@ == secret@),
{
    proof {
        vstd::utf8::encode_utf8_decode_utf8(given@);
        vstd::utf8::encode_utf8_decode_utf8(secret@);
    }
    constant_time_eq(given.as_str().as_bytes(), secret.as_str().as_bytes())
}

} // verus!
