//! The byte encoding of a decision that the audit chain hashes.
//!
//! Every field is written in order: numbers as eight big-endian bytes, flags
//! and tiers as one byte, texts as their UTF-8 byte length (eight bytes)
//! followed by their UTF-8 bytes. The length prefixes make the encoding
//! readable one way only, so different decisions never share an encoding.

use vstd::prelude::*;
use vstd::utf8::{decode_utf8, encode_utf8, encode_utf8_decode_utf8};

use crate::types::{Decision, TrustLevel};

verus! {

/// `n` as eight bytes, most significant first.
pub open spec fn num_bytes(n: u64) -> Seq<u8> {
    seq![
        (n >> 56u64) as u8,
        (n >> 48u64) as u8,
        (n >> 40u64) as u8,
        (n >> 32u64) as u8,
        (n >> 24u64) as u8,
        (n >> 16u64) as u8,
        (n >> 8u64) as u8,
        n as u8,
    ]
}

/// `1` for true, `0` for false.
pub open spec fn flag_byte(b: bool) -> Seq<u8> {
    seq![if b { 1u8 } else { 0u8 }]
}

/// The rank of a tier as one byte.
pub open spec fn tier_byte(level: TrustLevel) -> Seq<u8> {
    seq![level.spec_rank() as u8]
}

/// A text as its UTF-8 byte length and its UTF-8 bytes.
pub open spec fn text_bytes(s: Seq<char>) -> Seq<u8> {
    num_bytes(encode_utf8(s).len() as u64) + encode_utf8(s)
}

/// Encoding of the consent result.
pub open spec fn consent_part(d: Decision) -> Seq<u8> {
    flag_byte(d.consent.permitted) + text_bytes(d.consent.reason@)
}

/// Encoding of the budget result, then the consent result.
pub open spec fn budget_part(d: Decision) -> Seq<u8> {
    flag_byte(d.budget.permitted) + (num_bytes(d.budget.available) + (num_bytes(d.budget.requested)
        + (text_bytes(d.budget.category@) + (text_bytes(d.budget.reason@) + consent_part(d)))))
}

/// Encoding of the trust result, then the budget and consent results.
pub open spec fn trust_part(d: Decision) -> Seq<u8> {
    flag_byte(d.trust.permitted) + (tier_byte(d.trust.current_level) + (tier_byte(
        d.trust.required_level,
    ) + (text_bytes(d.trust.reason@) + budget_part(d))))
}

/// Encoding of a whole decision.
pub open spec fn decision_bytes(d: Decision) -> Seq<u8> {
    text_bytes(d.action@) + (flag_byte(d.permitted) + (num_bytes(d.timestamp_ms) + (text_bytes(
        d.reason@,
    ) + trust_part(d))))
}

/// The bytes hashed for a record: the previous hash, then the decision.
pub open spec fn hash_payload(prev_hash: Seq<char>, d: Decision) -> Seq<u8> {
    text_bytes(prev_hash) + decision_bytes(d)
}

/// The UTF-8 length of `s` fits in eight bytes, as that of any text held in
/// memory does.
pub open spec fn text_fits(s: Seq<char>) -> bool {
    encode_utf8(s).len() <= u64::MAX
}

/// Every text of `d` fits its length prefix.
pub open spec fn decision_fits(d: Decision) -> bool {
    &&& text_fits(d.action@)
    &&& text_fits(d.reason@)
    &&& text_fits(d.trust.reason@)
    &&& text_fits(d.budget.category@)
    &&& text_fits(d.budget.reason@)
    &&& text_fits(d.consent.reason@)
}

/// `a` and `b` hold the same decision, field by field.
pub open spec fn same_decision(a: Decision, b: Decision) -> bool {
    &&& a.permitted == b.permitted
    &&& a.action@ == b.action@
    &&& a.timestamp_ms == b.timestamp_ms
    &&& a.reason@ == b.reason@
    &&& a.trust.permitted == b.trust.permitted
    &&& a.trust.current_level == b.trust.current_level
    &&& a.trust.required_level == b.trust.required_level
    &&& a.trust.reason@ == b.trust.reason@
    &&& a.budget.permitted == b.budget.permitted
    &&& a.budget.available == b.budget.available
    &&& a.budget.requested == b.budget.requested
    &&& a.budget.category@ == b.budget.category@
    &&& a.budget.reason@ == b.budget.reason@
    &&& a.consent.permitted == b.consent.permitted
    &&& a.consent.reason@ == b.consent.reason@
}

/// Appends the eight bytes of `n`.
pub fn push_num(out: &mut Vec<u8>, n: u64)
    ensures
        final(out)@ == old(out)@ + num_bytes(n),
{
    out.push((n >> 56u64) as u8);
    out.push((n >> 48u64) as u8);
    out.push((n >> 40u64) as u8);
    out.push((n >> 32u64) as u8);
    out.push((n >> 24u64) as u8);
    out.push((n >> 16u64) as u8);
    out.push((n >> 8u64) as u8);
    out.push(n as u8);
    assert(out@ =~= old(out)@ + num_bytes(n));
}

/// Appends the byte of flag `b`.
pub fn push_flag(out: &mut Vec<u8>, b: bool)
    ensures
        final(out)@ == old(out)@ + flag_byte(b),
{
    out.push(if b { 1u8 } else { 0u8 });
    assert(out@ =~= old(out)@ + flag_byte(b));
}

/// Appends the byte of tier `level`.
pub fn push_tier(out: &mut Vec<u8>, level: TrustLevel)
    ensures
        final(out)@ == old(out)@ + tier_byte(level),
{
    out.push(level.rank());
    assert(out@ =~= old(out)@ + tier_byte(level));
}

/// Appends the length prefix and the UTF-8 bytes of `s`.
pub fn push_text(out: &mut Vec<u8>, s: &str)
    ensures
        final(out)@ == old(out)@ + text_bytes(s@),
{
    let bytes = s.as_bytes();
    push_num(out, bytes.len() as u64);
    let ghost start = out@;
    let mut i: usize = 0;
    while i < bytes.len()
        invariant
            bytes@ == encode_utf8(s@),
            i <= bytes@.len(),
            out@ == start + bytes@.subrange(0, i as int),
        decreases bytes@.len() - i,
    {
        out.push(bytes[i]);
        assert(out@ =~= start + bytes@.subrange(0, i + 1));
        i = i + 1;
    }
    assert(bytes@.subrange(0, bytes@.len() as int) =~= bytes@);
    assert(out@ =~= old(out)@ + text_bytes(s@));
}

fn push_consent_part(out: &mut Vec<u8>, d: &Decision)
    ensures
        final(out)@ == old(out)@ + consent_part(*d),
{
    push_flag(out, d.consent.permitted);
    push_text(out, d.consent.reason.as_str());
    assert(out@ =~= old(out)@ + consent_part(*d));
}

fn push_budget_part(out: &mut Vec<u8>, d: &Decision)
    ensures
        final(out)@ == old(out)@ + budget_part(*d),
{
    push_flag(out, d.budget.permitted);
    push_num(out, d.budget.available);
    push_num(out, d.budget.requested);
    push_text(out, d.budget.category.as_str());
    push_text(out, d.budget.reason.as_str());
    push_consent_part(out, d);
    assert(out@ =~= old(out)@ + budget_part(*d));
}

fn push_trust_part(out: &mut Vec<u8>, d: &Decision)
    ensures
        final(out)@ == old(out)@ + trust_part(*d),
{
    push_flag(out, d.trust.permitted);
    push_tier(out, d.trust.current_level);
    push_tier(out, d.trust.required_level);
    push_text(out, d.trust.reason.as_str());
    push_budget_part(out, d);
    assert(out@ =~= old(out)@ + trust_part(*d));
}

/// The bytes hashed for a record holding `decision` after `prev_hash`.
pub fn payload_of(decision: &Decision, prev_hash: &str) -> (r: Vec<u8>)
    ensures
        r@ == hash_payload(prev_hash@, *decision),
{
    let mut out: Vec<u8> = Vec::new();
    push_text(&mut out, prev_hash);
    let ghost after_prev = out@;
    push_text(&mut out, decision.action.as_str());
    push_flag(&mut out, decision.permitted);
    push_num(&mut out, decision.timestamp_ms);
    push_text(&mut out, decision.reason.as_str());
    push_trust_part(&mut out, decision);
    assert(out@ =~= after_prev + decision_bytes(*decision));
    out
}

/// Equal sequences that start with parts of equal length agree on both
/// parts.
proof fn lemma_split(x1: Seq<u8>, r1: Seq<u8>, x2: Seq<u8>, r2: Seq<u8>)
    requires
        x1 + r1 == x2 + r2,
        x1.len() == x2.len(),
    ensures
        x1 == x2,
        r1 == r2,
{
    assert(x1 =~= (x1 + r1).subrange(0, x1.len() as int));
    assert(x2 =~= (x2 + r2).subrange(0, x2.len() as int));
    assert(r1 =~= (x1 + r1).subrange(x1.len() as int, (x1 + r1).len() as int));
    assert(r2 =~= (x2 + r2).subrange(x2.len() as int, (x2 + r2).len() as int));
}

/// Eight-byte numbers are read back unchanged.
proof fn lemma_num_injective(n1: u64, n2: u64)
    requires
        num_bytes(n1) == num_bytes(n2),
    ensures
        n1 == n2,
{
    assert(num_bytes(n1)[0] == num_bytes(n2)[0]);
    assert(num_bytes(n1)[1] == num_bytes(n2)[1]);
    assert(num_bytes(n1)[2] == num_bytes(n2)[2]);
    assert(num_bytes(n1)[3] == num_bytes(n2)[3]);
    assert(num_bytes(n1)[4] == num_bytes(n2)[4]);
    assert(num_bytes(n1)[5] == num_bytes(n2)[5]);
    assert(num_bytes(n1)[6] == num_bytes(n2)[6]);
    assert(num_bytes(n1)[7] == num_bytes(n2)[7]);
    assert(n1 == n2) by (bit_vector)
        requires
            (n1 >> 56u64) as u8 == (n2 >> 56u64) as u8,
            (n1 >> 48u64) as u8 == (n2 >> 48u64) as u8,
            (n1 >> 40u64) as u8 == (n2 >> 40u64) as u8,
            (n1 >> 32u64) as u8 == (n2 >> 32u64) as u8,
            (n1 >> 24u64) as u8 == (n2 >> 24u64) as u8,
            (n1 >> 16u64) as u8 == (n2 >> 16u64) as u8,
            (n1 >> 8u64) as u8 == (n2 >> 8u64) as u8,
            n1 as u8 == n2 as u8,
    ;
}

/// A leading number is read back, with what follows it.
proof fn lemma_peel_num(n1: u64, r1: Seq<u8>, n2: u64, r2: Seq<u8>)
    requires
        num_bytes(n1) + r1 == num_bytes(n2) + r2,
    ensures
        n1 == n2,
        r1 == r2,
{
    lemma_split(num_bytes(n1), r1, num_bytes(n2), r2);
    lemma_num_injective(n1, n2);
}

/// A leading byte is read back, with what follows it.
proof fn lemma_peel_byte(b1: u8, r1: Seq<u8>, b2: u8, r2: Seq<u8>)
    requires
        seq![b1] + r1 == seq![b2] + r2,
    ensures
        b1 == b2,
        r1 == r2,
{
    lemma_split(seq![b1], r1, seq![b2], r2);
    assert(seq![b1][0] == seq![b2][0]);
}

/// A leading text is read back, with what follows it.
proof fn lemma_peel_text(s1: Seq<char>, r1: Seq<u8>, s2: Seq<char>, r2: Seq<u8>)
    requires
        text_bytes(s1) + r1 == text_bytes(s2) + r2,
        text_fits(s1),
        text_fits(s2),
    ensures
        s1 == s2,
        r1 == r2,
{
    let e1 = encode_utf8(s1);
    let e2 = encode_utf8(s2);
    assert(text_bytes(s1) + r1 =~= num_bytes(e1.len() as u64) + (e1 + r1));
    assert(text_bytes(s2) + r2 =~= num_bytes(e2.len() as u64) + (e2 + r2));
    lemma_peel_num(e1.len() as u64, e1 + r1, e2.len() as u64, e2 + r2);
    lemma_split(e1, r1, e2, r2);
    encode_utf8_decode_utf8(s1);
    encode_utf8_decode_utf8(s2);
}

/// Different decisions, or different previous hashes, never give the same
/// bytes to hash: equal payloads come from equal previous hashes and
/// decisions equal in every field. Only a collision of the hash itself can
/// then make two records agree.
pub proof fn lemma_payload_injective(p1: Seq<char>, d1: Decision, p2: Seq<char>, d2: Decision)
    requires
        hash_payload(p1, d1) == hash_payload(p2, d2),
        text_fits(p1),
        text_fits(p2),
        decision_fits(d1),
        decision_fits(d2),
    ensures
        p1 == p2,
        same_decision(d1, d2),
{
    lemma_peel_text(p1, decision_bytes(d1), p2, decision_bytes(d2));
    lemma_peel_text(
        d1.action@,
        flag_byte(d1.permitted) + (num_bytes(d1.timestamp_ms) + (text_bytes(d1.reason@)
            + trust_part(d1))),
        d2.action@,
        flag_byte(d2.permitted) + (num_bytes(d2.timestamp_ms) + (text_bytes(d2.reason@)
            + trust_part(d2))),
    );
    lemma_peel_byte(
        if d1.permitted { 1u8 } else { 0u8 },
        num_bytes(d1.timestamp_ms) + (text_bytes(d1.reason@) + trust_part(d1)),
        if d2.permitted { 1u8 } else { 0u8 },
        num_bytes(d2.timestamp_ms) + (text_bytes(d2.reason@) + trust_part(d2)),
    );
    lemma_peel_num(
        d1.timestamp_ms,
        text_bytes(d1.reason@) + trust_part(d1),
        d2.timestamp_ms,
        text_bytes(d2.reason@) + trust_part(d2),
    );
    lemma_peel_text(d1.reason@, trust_part(d1), d2.reason@, trust_part(d2));
    lemma_trust_part_injective(d1, d2);
}

proof fn lemma_trust_part_injective(d1: Decision, d2: Decision)
    requires
        trust_part(d1) == trust_part(d2),
        decision_fits(d1),
        decision_fits(d2),
    ensures
        d1.trust.permitted == d2.trust.permitted,
        d1.trust.current_level == d2.trust.current_level,
        d1.trust.required_level == d2.trust.required_level,
        d1.trust.reason@ == d2.trust.reason@,
        d1.budget.permitted == d2.budget.permitted,
        d1.budget.available == d2.budget.available,
        d1.budget.requested == d2.budget.requested,
        d1.budget.category@ == d2.budget.category@,
        d1.budget.reason@ == d2.budget.reason@,
        d1.consent.permitted == d2.consent.permitted,
        d1.consent.reason@ == d2.consent.reason@,
{
    let t1 = d1.trust;
    let t2 = d2.trust;
    lemma_peel_byte(
        if t1.permitted { 1u8 } else { 0u8 },
        tier_byte(t1.current_level) + (tier_byte(t1.required_level) + (text_bytes(t1.reason@)
            + budget_part(d1))),
        if t2.permitted { 1u8 } else { 0u8 },
        tier_byte(t2.current_level) + (tier_byte(t2.required_level) + (text_bytes(t2.reason@)
            + budget_part(d2))),
    );
    lemma_peel_byte(
        t1.current_level.spec_rank() as u8,
        tier_byte(t1.required_level) + (text_bytes(t1.reason@) + budget_part(d1)),
        t2.current_level.spec_rank() as u8,
        tier_byte(t2.required_level) + (text_bytes(t2.reason@) + budget_part(d2)),
    );
    lemma_peel_byte(
        t1.required_level.spec_rank() as u8,
        text_bytes(t1.reason@) + budget_part(d1),
        t2.required_level.spec_rank() as u8,
        text_bytes(t2.reason@) + budget_part(d2),
    );
    lemma_peel_text(t1.reason@, budget_part(d1), t2.reason@, budget_part(d2));
    let b1 = d1.budget;
    let b2 = d2.budget;
    lemma_peel_byte(
        if b1.permitted { 1u8 } else { 0u8 },
        num_bytes(b1.available) + (num_bytes(b1.requested) + (text_bytes(b1.category@) + (
        text_bytes(b1.reason@) + consent_part(d1)))),
        if b2.permitted { 1u8 } else { 0u8 },
        num_bytes(b2.available) + (num_bytes(b2.requested) + (text_bytes(b2.category@) + (
        text_bytes(b2.reason@) + consent_part(d2)))),
    );
    lemma_peel_num(
        b1.available,
        num_bytes(b1.requested) + (text_bytes(b1.category@) + (text_bytes(b1.reason@)
            + consent_part(d1))),
        b2.available,
        num_bytes(b2.requested) + (text_bytes(b2.category@) + (text_bytes(b2.reason@)
            + consent_part(d2))),
    );
    lemma_peel_num(
        b1.requested,
        text_bytes(b1.category@) + (text_bytes(b1.reason@) + consent_part(d1)),
        b2.requested,
        text_bytes(b2.category@) + (text_bytes(b2.reason@) + consent_part(d2)),
    );
    lemma_peel_text(
        b1.category@,
        text_bytes(b1.reason@) + consent_part(d1),
        b2.category@,
        text_bytes(b2.reason@) + consent_part(d2),
    );
    lemma_peel_text(b1.reason@, consent_part(d1), b2.reason@, consent_part(d2));
    let c1 = d1.consent;
    let c2 = d2.consent;
    lemma_peel_byte(
        if c1.permitted { 1u8 } else { 0u8 },
        text_bytes(c1.reason@),
        if c2.permitted { 1u8 } else { 0u8 },
        text_bytes(c2.reason@),
    );
    assert(text_bytes(c1.reason@) + Seq::<u8>::empty() =~= text_bytes(c1.reason@));
    assert(text_bytes(c2.reason@) + Seq::<u8>::empty() =~= text_bytes(c2.reason@));
    lemma_peel_text(c1.reason@, Seq::empty(), c2.reason@, Seq::empty());
    lemma_rank_injective(t1.current_level, t2.current_level);
    lemma_rank_injective(t1.required_level, t2.required_level);
}

proof fn lemma_rank_injective(a: TrustLevel, b: TrustLevel)
    requires
        a.spec_rank() as u8 == b.spec_rank() as u8,
    ensures
        a == b,
{
}

} // verus!
