//! The encoder: a greedy, longest-match-first pass over the input.
//!
//! At each position the longest codebook entry (of at most `MAX_PATTERN_LEN`
//! bytes) that the input continues with is replaced by its code.  Bytes where
//! no entry starts are gathered and sent in literal tokens: one byte alone in a
//! single-literal token, more in a literal run of at most 256 bytes.
use vstd::prelude::*;
use crate::decode::{LITERAL_RUN, SINGLE_LITERAL};
use crate::dictionary::{index_of, lemma_index_of, lookup, pattern, CODEBOOK_LEN, MAX_PATTERN_LEN};

verus! {

/// Largest number of bytes carried by one literal run.
pub const MAX_RUN: usize = 256;

/// The longest codebook entry among the lengths `n` down to 1 that `s`
/// continues with at `pos`, as its length and code.
pub open spec fn match_within(s: Seq<u8>, pos: int, n: int) -> Option<(int, u8)>
    decreases n,
{
    if n <= 0 {
        None
    } else {
        match index_of(s.subrange(pos, pos + n)) {
            Some(code) => Some((n, code)),
            None => match_within(s, pos, n - 1),
        }
    }
}

/// How many bytes a match at `pos` may cover.
pub open spec fn window(s: Seq<u8>, pos: int) -> int {
    if s.len() - pos < MAX_PATTERN_LEN {
        s.len() - pos
    } else {
        MAX_PATTERN_LEN as int
    }
}

/// The longest codebook entry that `s` continues with at `pos`.
pub open spec fn longest_match(s: Seq<u8>, pos: int) -> Option<(int, u8)> {
    match_within(s, pos, window(s, pos))
}

/// A found match is between 1 and `n` bytes long, and its code names exactly
/// the bytes it covers.
pub proof fn lemma_match_within(s: Seq<u8>, pos: int, n: int)
    ensures
        match_within(s, pos, n) matches Some((len, code)) ==> 1 <= len <= n && code
            < CODEBOOK_LEN && pattern(code) == s.subrange(pos, pos + len),
    decreases n,
{
    if n > 0 {
        lemma_index_of(s.subrange(pos, pos + n));
        lemma_match_within(s, pos, n - 1);
    }
}

/// The literal token that carries `run` (one to `MAX_RUN` bytes).
pub open spec fn literal_token(run: Seq<u8>) -> Seq<u8> {
    if run.len() > 1 {
        seq![LITERAL_RUN, (run.len() - 1) as u8] + run
    } else {
        seq![SINGLE_LITERAL] + run
    }
}

/// The encoding of `s` from `pos` on, with the bytes `pending` gathered for a
/// literal token and not sent yet.
pub open spec fn encode_from(s: Seq<u8>, pos: int, pending: Seq<u8>) -> Seq<u8>
    decreases s.len() - pos,
    via encode_from_decreases
{
    if pos >= s.len() {
        if pending.len() > 0 {
            literal_token(pending)
        } else {
            Seq::empty()
        }
    } else {
        match longest_match(s, pos) {
            Some((len, code)) => {
                let flushed = if pending.len() > 0 {
                    literal_token(pending)
                } else {
                    Seq::empty()
                };
                flushed + seq![code] + encode_from(s, pos + len, Seq::empty())
            },
            None => {
                let gathered = pending.push(s[pos]);
                if gathered.len() == MAX_RUN {
                    literal_token(gathered) + encode_from(s, pos + 1, Seq::empty())
                } else {
                    encode_from(s, pos + 1, gathered)
                }
            },
        }
    }
}

#[via_fn]
proof fn encode_from_decreases(s: Seq<u8>, pos: int, pending: Seq<u8>) {
    lemma_match_within(s, pos, window(s, pos));
}

/// The encoding of `s`.
pub open spec fn encode(s: Seq<u8>) -> Seq<u8> {
    encode_from(s, 0, Seq::empty())
}

/// The literal token that carries `verbatim`.
fn flush_verbatim(verbatim: &[u8]) -> (chunk: Vec<u8>)
    requires
        1 <= verbatim@.len() <= MAX_RUN,
    ensures
        chunk@ == literal_token(verbatim@),
{
    let mut chunk: Vec<u8> = Vec::new();
    if verbatim.len() > 1 {
        chunk.push(LITERAL_RUN);
        chunk.push((verbatim.len() - 1) as u8);
    } else {
        chunk.push(SINGLE_LITERAL);
    }
    let ghost head = chunk@;
    let mut k: usize = 0;
    while k < verbatim.len()
        invariant
            k <= verbatim@.len(),
            chunk@ == head + verbatim@.subrange(0, k as int),
        decreases verbatim@.len() - k,
    {
        chunk.push(verbatim[k]);
        k = k + 1;
        assert(chunk@ =~= head + verbatim@.subrange(0, k as int));
    }
    assert(verbatim@.subrange(0, verbatim@.len() as int) =~= verbatim@);
    chunk
}

/// The longest codebook entry that `input` continues with at `pos`, as its
/// length and code.
fn longest_match_at(input: &[u8], pos: usize) -> (r: Option<(usize, u8)>)
    requires
        pos < input@.len(),
    ensures
        match longest_match(input@, pos as int) {
            Some((len, code)) => r == Some((len as usize, code)),
            None => r is None,
        },
{
    let ghost s = input@;
    let total = input.len();
    let mut n: usize = if input.len() - pos < MAX_PATTERN_LEN {
        input.len() - pos
    } else {
        MAX_PATTERN_LEN
    };
    while n > 0
        invariant
            s == input@,
            pos < s.len(),
            n <= window(s, pos as int),
            pos + n <= s.len(),
            total == s.len(),
            longest_match(s, pos as int) == match_within(s, pos as int, n as int),
        decreases n,
    {
        assert(input@.subrange(pos as int, pos + n) == s.subrange(pos as int, pos + n));
        if let Some(code) = lookup(&input[pos..pos + n]) {
            return Some((n, code));
        }
        n = n - 1;
    }
    None
}

/// Compresses `input`.  Never fails; `decompress` gives `input` back (see
/// `lemma_round_trip`).
pub fn compress(input: &[u8]) -> (out: Vec<u8>)
    ensures
        out@ == encode(input@),
{
    let ghost s = input@;
    let mut out: Vec<u8> = Vec::with_capacity(input.len() / 2);
    let mut verbatim: Vec<u8> = Vec::new();
    let mut pos: usize = 0;
    assert(out@ + encode(s) =~= encode(s));
    while pos < input.len()
        invariant
            s == input@,
            pos <= s.len(),
            verbatim@.len() < MAX_RUN,
            out@ + encode_from(s, pos as int, verbatim@) == encode(s),
        decreases s.len() - pos,
    {
        let ghost before = out@;
        let ghost pending = verbatim@;
        proof {
            lemma_match_within(s, pos as int, window(s, pos as int));
        }
        match longest_match_at(input, pos) {
            Some((len, code)) => {
                let ghost flushed = if pending.len() > 0 {
                    literal_token(pending)
                } else {
                    Seq::empty()
                };
                if verbatim.len() > 0 {
                    let mut chunk = flush_verbatim(&verbatim);
                    out.append(&mut chunk);
                    verbatim.clear();
                }
                assert(out@ =~= before + flushed);
                assert(verbatim@ =~= Seq::<u8>::empty());
                out.push(code);
                pos = pos + len;
                assert(before + (flushed + seq![code] + encode_from(s, pos as int, Seq::empty()))
                    =~= out@ + encode_from(s, pos as int, verbatim@));
            },
            None => {
                verbatim.push(input[pos]);
                pos = pos + 1;
                if verbatim.len() == MAX_RUN {
                    let ghost gathered = verbatim@;
                    let mut chunk = flush_verbatim(&verbatim);
                    out.append(&mut chunk);
                    verbatim.clear();
                    assert(before + (literal_token(gathered) + encode_from(s, pos as int, Seq::empty()))
                        =~= out@ + encode_from(s, pos as int, verbatim@));
                }
            },
        }
    }
    if verbatim.len() > 0 {
        let mut chunk = flush_verbatim(&verbatim);
        out.append(&mut chunk);
    }
    assert(out@ =~= out@ + Seq::<u8>::empty());
    out
}

} // verus!
