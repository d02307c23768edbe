//! What holds between `compress` and `decompress`, proved over the spec
//! functions their contracts use.
use vstd::prelude::*;
use crate::decode::{decode, holds_token, token_bytes, token_len, LITERAL_RUN, SINGLE_LITERAL};
use crate::dictionary::{index_of, lemma_index_of, pattern, CODEBOOK_LEN};
use crate::encode::{
    encode, encode_from, lemma_match_within, literal_token, longest_match, match_within, window,
    MAX_RUN,
};

verus! {

/// `run` followed by the bytes `rest` decodes to, or `None` with `rest`.
pub open spec fn prepend(run: Seq<u8>, rest: Option<Seq<u8>>) -> Option<Seq<u8>> {
    match rest {
        Some(r) => Some(run + r),
        None => None,
    }
}

/// A literal token decodes to the bytes it carries.
pub proof fn lemma_decode_literal(run: Seq<u8>, rest: Seq<u8>)
    requires
        1 <= run.len() <= MAX_RUN,
    ensures
        decode(literal_token(run) + rest) == prepend(run, decode(rest)),
{
    let t = literal_token(run) + rest;
    assert(holds_token(t));
    assert(token_len(t) == literal_token(run).len());
    assert(t.skip(token_len(t)) =~= rest);
    assert(token_bytes(t) =~= run);
}

/// A codebook token decodes to its entry.
pub proof fn lemma_decode_code(code: u8, rest: Seq<u8>)
    requires
        code < CODEBOOK_LEN,
    ensures
        decode(seq![code] + rest) == prepend(pattern(code), decode(rest)),
{
    let t = seq![code] + rest;
    assert(t.skip(1) =~= rest);
}

/// Decoding the encoding of `s` from `pos` on, with `pending` gathered, gives
/// `pending` and then the rest of `s`.
pub proof fn lemma_decode_encode_from(s: Seq<u8>, pos: int, pending: Seq<u8>)
    requires
        0 <= pos <= s.len(),
        pending.len() < MAX_RUN,
    ensures
        decode(encode_from(s, pos, pending)) == Some(pending + s.skip(pos)),
    decreases s.len() - pos,
{
    if pos >= s.len() {
        if pending.len() > 0 {
            lemma_decode_literal(pending, Seq::empty());
            assert(literal_token(pending) + Seq::empty() =~= literal_token(pending));
        }
        assert(pending + s.skip(pos) =~= pending);
    } else {
        lemma_match_within(s, pos, window(s, pos));
        match longest_match(s, pos) {
            Some((len, code)) => {
                let tail = encode_from(s, pos + len, Seq::empty());
                lemma_decode_encode_from(s, pos + len, Seq::empty());
                lemma_decode_code(code, tail);
                if pending.len() > 0 {
                    lemma_decode_literal(pending, seq![code] + tail);
                    assert(literal_token(pending) + seq![code] + tail =~= literal_token(pending)
                        + (seq![code] + tail));
                } else {
                    assert(Seq::<u8>::empty() + seq![code] + tail =~= seq![code] + tail);
                }
                assert(pending + (pattern(code) + (Seq::empty() + s.skip(pos + len)))
                    =~= pending + s.skip(pos));
            },
            None => {
                let gathered = pending.push(s[pos]);
                assert(gathered + s.skip(pos + 1) =~= pending + s.skip(pos));
                if gathered.len() == MAX_RUN {
                    let tail = encode_from(s, pos + 1, Seq::empty());
                    lemma_decode_encode_from(s, pos + 1, Seq::empty());
                    lemma_decode_literal(gathered, tail);
                    assert(Seq::<u8>::empty() + s.skip(pos + 1) =~= s.skip(pos + 1));
                } else {
                    lemma_decode_encode_from(s, pos + 1, gathered);
                }
            },
        }
    }
}

/// Round trip: decoding the encoding of any byte string gives it back.
pub proof fn lemma_round_trip(s: Seq<u8>)
    ensures
        decode(encode(s)) == Some(s),
{
    lemma_decode_encode_from(s, 0, Seq::empty());
    assert(Seq::<u8>::empty() + s.skip(0) =~= s);
}

/// Decoding a stream of whole tokens followed by more bytes gives what the
/// tokens stand for, followed by what the rest decodes to.
pub proof fn lemma_decode_append(a: Seq<u8>, b: Seq<u8>)
    requires
        decode(a) is Some,
    ensures
        decode(a + b) == prepend(decode(a)->0, decode(b)),
    decreases a.len(),
{
    if a.len() == 0 {
        assert(a + b =~= b);
    } else {
        let t = a + b;
        let n = token_len(a);
        assert(t[0] == a[0]);
        assert(a[0] >= SINGLE_LITERAL ==> t[1] == a[1]);
        assert(token_len(t) == n);
        assert(token_bytes(t) =~= token_bytes(a));
        assert(t.skip(n) =~= a.skip(n) + b);
        lemma_decode_append(a.skip(n), b);
        if let Some(r) = decode(b) {
            assert(token_bytes(a) + (decode(a.skip(n))->0 + r) =~= token_bytes(a) + decode(
                a.skip(n),
            )->0 + r);
        }
    }
}

/// A whole literal token: a single-literal tag and its byte, or a run tag, a
/// length byte `l` and `l + 1` bytes.
pub open spec fn is_literal_token(tok: Seq<u8>) -> bool {
    ||| tok.len() == 2 && tok[0] == SINGLE_LITERAL
    ||| tok.len() >= 2 && tok[0] == LITERAL_RUN && tok.len() == tok[1] + 3
}

/// Truncation is detected: whole tokens followed by a literal token cut
/// strictly inside do not decode.
pub proof fn lemma_truncated_token_rejected(valid: Seq<u8>, tok: Seq<u8>, cut: int)
    requires
        decode(valid) is Some,
        is_literal_token(tok),
        0 < cut < tok.len(),
    ensures
        decode(valid + tok.take(cut)) is None,
{
    let part = tok.take(cut);
    assert(part[0] == tok[0]);
    assert(cut >= 2 ==> part[1] == tok[1]);
    assert(!holds_token(part));
    lemma_decode_append(valid, part);
}

/// No codebook entry starts with `b`.
pub open spec fn starts_no_entry(b: u8) -> bool {
    forall|code: u8|
        #![trigger pattern(code)]
        code < CODEBOOK_LEN ==> !(pattern(code).len() > 0 && pattern(code)[0] == b)
}

/// Where no codebook entry starts with the byte at `pos`, nothing matches.
pub proof fn lemma_no_match(s: Seq<u8>, pos: int, n: int)
    requires
        0 <= pos < s.len(),
        pos + n <= s.len(),
        starts_no_entry(s[pos]),
    ensures
        match_within(s, pos, n) is None,
    decreases n,
{
    if n > 0 {
        let part = s.subrange(pos, pos + n);
        lemma_index_of(part);
        if let Some(code) = index_of(part) {
            assert(pattern(code).len() > 0 && pattern(code)[0] == s[pos]);
        }
        lemma_no_match(s, pos, n - 1);
    }
}

/// Bytes that start no entry are gathered until `MAX_RUN` of them go out as
/// one run.
pub proof fn lemma_literal_stretch(s: Seq<u8>, pos: int, end: int, pending: Seq<u8>)
    requires
        0 <= pos <= end <= s.len(),
        forall|i: int| pos <= i < end ==> starts_no_entry(#[trigger] s[i]),
        pending.len() < MAX_RUN,
        pending.len() + (end - pos) == MAX_RUN,
    ensures
        encode_from(s, pos, pending) == literal_token(pending + s.subrange(pos, end))
            + encode_from(s, end, Seq::empty()),
    decreases end - pos,
{
    lemma_no_match(s, pos, window(s, pos));
    let gathered = pending.push(s[pos]);
    assert(gathered + s.subrange(pos + 1, end) =~= pending + s.subrange(pos, end));
    if gathered.len() < MAX_RUN {
        lemma_literal_stretch(s, pos + 1, end, gathered);
    } else {
        assert(s.subrange(pos + 1, end) =~= Seq::<u8>::empty());
        assert(gathered + Seq::<u8>::empty() =~= gathered);
    }
}

/// Fewer than `MAX_RUN` bytes that start no entry, at the end of the input, go
/// out as one literal token.
pub proof fn lemma_literal_tail(s: Seq<u8>, pos: int, pending: Seq<u8>)
    requires
        0 <= pos <= s.len(),
        forall|i: int| pos <= i < s.len() ==> starts_no_entry(#[trigger] s[i]),
        0 < pending.len() + (s.len() - pos) < MAX_RUN,
    ensures
        encode_from(s, pos, pending) == literal_token(pending + s.skip(pos)),
    decreases s.len() - pos,
{
    if pos == s.len() {
        assert(pending + s.skip(pos) =~= pending);
    } else {
        lemma_no_match(s, pos, window(s, pos));
        let gathered = pending.push(s[pos]);
        assert(gathered + s.skip(pos + 1) =~= pending + s.skip(pos));
        lemma_literal_tail(s, pos + 1, gathered);
    }
}

/// `MAX_RUN` bytes that start no entry encode to one literal run whose length
/// byte is 255.
pub proof fn lemma_full_run(s: Seq<u8>)
    requires
        s.len() == MAX_RUN,
        forall|i: int| 0 <= i < s.len() ==> starts_no_entry(#[trigger] s[i]),
    ensures
        encode(s) == seq![LITERAL_RUN, 255u8] + s,
{
    lemma_literal_stretch(s, 0, MAX_RUN as int, Seq::empty());
    assert(Seq::<u8>::empty() + s.subrange(0, MAX_RUN as int) =~= s);
    assert(literal_token(s) + Seq::<u8>::empty() =~= literal_token(s));
}

/// One byte more than `MAX_RUN` that start no entry encode to a full run and
/// then a single-literal token.
pub proof fn lemma_full_run_and_one(s: Seq<u8>)
    requires
        s.len() == MAX_RUN + 1,
        forall|i: int| 0 <= i < s.len() ==> starts_no_entry(#[trigger] s[i]),
    ensures
        encode(s) == seq![LITERAL_RUN, 255u8] + s.take(MAX_RUN as int) + seq![
            SINGLE_LITERAL,
            s[MAX_RUN as int],
        ],
{
    lemma_literal_stretch(s, 0, MAX_RUN as int, Seq::empty());
    lemma_literal_tail(s, MAX_RUN as int, Seq::empty());
    assert(Seq::<u8>::empty() + s.subrange(0, MAX_RUN as int) =~= s.take(MAX_RUN as int));
    assert(Seq::<u8>::empty() + s.skip(MAX_RUN as int) =~= seq![s[MAX_RUN as int]]);
    assert(seq![LITERAL_RUN, 255u8] + s.take(MAX_RUN as int) + (seq![SINGLE_LITERAL] + seq![
        s[MAX_RUN as int],
    ]) =~= seq![LITERAL_RUN, 255u8] + s.take(MAX_RUN as int) + seq![
        SINGLE_LITERAL,
        s[MAX_RUN as int],
    ]);
}

} // verus!
