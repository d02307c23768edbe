//! The decoder: replays a token stream into the bytes it stands for.
//!
//! A stream is a sequence of tokens, told apart by their first byte (the tag):
//! - a tag below `CODEBOOK_LEN` stands for that codebook entry;
//! - `SINGLE_LITERAL` is followed by one byte carried as it is;
//! - `LITERAL_RUN` is followed by a length byte `l` and then `l + 1` bytes
//!   carried as they are.
use vstd::prelude::*;
use crate::dictionary::{pattern, pattern_of, CODEBOOK_LEN};

verus! {

/// Tag of a token that carries one byte.
pub const SINGLE_LITERAL: u8 = 254;

/// Tag of a token that carries a run of one to 256 bytes.
pub const LITERAL_RUN: u8 = 255;

/// The error of `decompress`: the stream ends inside a token.
#[derive(Debug, Clone, Copy, PartialEq, Eq)]
pub struct DecompressError;

impl DecompressError {
    /// A short description of the error.
    pub fn description(&self) -> (r: &'static str)
        ensures
            r@ == "invalid compressed data"@,
    {
        proof {
            reveal_strlit("invalid compressed data");
        }
        "invalid compressed data"
    }
}

/// Number of bytes of the first token of `t`, where `t` holds all of it.
pub open spec fn token_len(t: Seq<u8>) -> int
    recommends
        t.len() > 0,
{
    if t[0] == SINGLE_LITERAL {
        2
    } else if t[0] == LITERAL_RUN {
        t[1] + 3
    } else {
        1
    }
}

/// Whether `t` starts with a whole token: it is not empty and does not stop
/// inside its first token.
pub open spec fn holds_token(t: Seq<u8>) -> bool {
    t.len() > 0 && (t[0] >= SINGLE_LITERAL ==> t.len() >= 2) && t.len() >= token_len(t)
}

/// The bytes that the first token of `t` stands for.
pub open spec fn token_bytes(t: Seq<u8>) -> Seq<u8> {
    if t[0] == SINGLE_LITERAL {
        seq![t[1]]
    } else if t[0] == LITERAL_RUN {
        t.subrange(2, token_len(t))
    } else {
        pattern(t[0])
    }
}

/// The bytes that the stream `t` stands for, or `None` where it stops inside
/// a token.
pub open spec fn decode(t: Seq<u8>) -> Option<Seq<u8>>
    decreases t.len(),
{
    if t.len() == 0 {
        Some(Seq::empty())
    } else if !holds_token(t) {
        None
    } else {
        match decode(t.skip(token_len(t))) {
            Some(rest) => Some(token_bytes(t) + rest),
            None => None,
        }
    }
}

/// Appends `bytes` to `out`.
fn push_all(out: &mut Vec<u8>, bytes: &[u8])
    ensures
        final(out)@ == old(out)@ + bytes@,
{
    let mut k: usize = 0;
    while k < bytes.len()
        invariant
            k <= bytes@.len(),
            out@ == old(out)@ + bytes@.subrange(0, k as int),
        decreases bytes@.len() - k,
    {
        out.push(bytes[k]);
        k = k + 1;
        assert(out@ =~= old(out)@ + bytes@.subrange(0, k as int));
    }
    assert(bytes@.subrange(0, bytes@.len() as int) =~= bytes@);
}

/// Decodes a token stream.  Fails exactly where the stream ends inside a
/// token; every other stream decodes.
pub fn decompress(input: &[u8]) -> (r: Result<Vec<u8>, DecompressError>)
    ensures
        match r {
            Ok(v) => decode(input@) == Some(v@),
            Err(_) => decode(input@) is None,
        },
{
    let ghost s = input@;
    let mut out: Vec<u8> = Vec::new();
    let mut i: usize = 0;
    assert(s.skip(0) =~= s);
    proof {
        if let Some(all) = decode(s) {
            assert(out@ + all =~= all);
        }
    }
    while i < input.len()
        invariant
            s == input@,
            i <= s.len(),
            match decode(s.skip(i as int)) {
                Some(rest) => decode(s) == Some(out@ + rest),
                None => decode(s) is None,
            },
        decreases s.len() - i,
    {
        let ghost t = s.skip(i as int);
        let ghost before = out@;
        let tag = input[i];
        assert(t[0] == tag);
        if tag == SINGLE_LITERAL {
            if input.len() - i < 2 {
                return Err(DecompressError);
            }
            assert(t[1] == input@[i + 1]);
            out.push(input[i + 1]);
            i = i + 2;
        } else if tag == LITERAL_RUN {
            if input.len() - i < 2 {
                return Err(DecompressError);
            }
            let run = input[i + 1] as usize + 1;
            assert(t[1] == input@[i + 1]);
            if input.len() - (i + 2) < run {
                return Err(DecompressError);
            }
            assert(t.subrange(2, token_len(t)) =~= input@.subrange(i + 2, i + 2 + run));
            push_all(&mut out, &input[i + 2..i + 2 + run]);
            i = i + 2 + run;
        } else {
            push_all(&mut out, pattern_of(tag));
            i = i + 1;
        }
        assert(t.skip(token_len(t)) =~= s.skip(i as int));
        assert(out@ == before + token_bytes(t));
        proof {
            if let Some(rest) = decode(s.skip(i as int)) {
                assert(before + (token_bytes(t) + rest) =~= out@ + rest);
            }
        }
    }
    assert(s.skip(i as int) =~= Seq::<u8>::empty());
    assert(out@ + Seq::<u8>::empty() =~= out@);
    Ok(out)
}

} // verus!
