use vstd::prelude::*;

use crate::error::ErrorCode;
use crate::risk::RiskResult;

verus! {

/// Width of one output field, in bytes.
pub const FIELD_WIDTH: usize = 8;

/// Length of a risk result payload: three fields.
pub const RISK_OUTPUT_LEN: usize = 24;

/// The little-endian unsigned value of the eight bytes of `s` from `at`.
pub open spec fn spec_le_u64(s: Seq<u8>, at: int) -> int {
    s[at] + s[at + 1] * 0x100 + s[at + 2] * 0x1_0000 + s[at + 3] * 0x100_0000 + s[at + 4]
        * 0x1_0000_0000 + s[at + 5] * 0x100_0000_0000 + s[at + 6] * 0x1_0000_0000_0000 + s[at
        + 7] * 0x100_0000_0000_0000
}

/// The verdict held by a payload of at least three fields: the first and the
/// last are flags that are set when they equal one.
pub open spec fn spec_decode_risk(s: Seq<u8>) -> RiskResult {
    RiskResult {
        is_liquidatable: spec_le_u64(s, 0) == 1,
        equity: spec_le_u64(s, 8) as u64,
        pnl_is_positive: spec_le_u64(s, 16) == 1,
    }
}

/// Reads the little-endian `u64` at byte `at` of `bytes`.
pub fn read_u64_le(bytes: &[u8], at: usize) -> (r: u64)
    requires
        at + 8 <= bytes@.len(),
    ensures
        r as int == spec_le_u64(bytes@, at as int),
{
    let b0 = bytes[at] as u64;
    let b1 = bytes[at + 1] as u64;
    let b2 = bytes[at + 2] as u64;
    let b3 = bytes[at + 3] as u64;
    let b4 = bytes[at + 4] as u64;
    let b5 = bytes[at + 5] as u64;
    let b6 = bytes[at + 6] as u64;
    let b7 = bytes[at + 7] as u64;
    b0 + b1 * 0x100 + b2 * 0x1_0000 + b3 * 0x100_0000 + b4 * 0x1_0000_0000 + b5 * 0x100_0000_0000
        + b6 * 0x1_0000_0000_0000 + b7 * 0x100_0000_0000_0000
}

/// Decodes a risk result payload: `is_liquidatable`, `equity` and
/// `pnl_is_positive`, each an eight-byte little-endian field in that order.
/// A payload shorter than the three fields is refused, never padded.
pub fn decode_risk_output(payload: &[u8]) -> (r: Result<RiskResult, ErrorCode>)
    ensures
        payload@.len() < RISK_OUTPUT_LEN <==> r == Err::<RiskResult, ErrorCode>(
            ErrorCode::DecodeError,
        ),
        payload@.len() >= RISK_OUTPUT_LEN ==> r == Ok::<RiskResult, ErrorCode>(
            spec_decode_risk(payload@),
        ),
{
    if payload.len() < RISK_OUTPUT_LEN {
        return Err(ErrorCode::DecodeError);
    }
    let liq = read_u64_le(payload, 0);
    let equity = read_u64_le(payload, FIELD_WIDTH);
    let profit = read_u64_le(payload, 2 * FIELD_WIDTH);
    Ok(RiskResult { is_liquidatable: liq == 1, equity, pnl_is_positive: profit == 1 })
}

/// Appends `v` to `out` as eight little-endian bytes.
pub fn write_u64_le(out: &mut Vec<u8>, v: u64)
    ensures
        final(out)@.len() == old(out)@.len() + 8,
        final(out)@.subrange(0, old(out)@.len() as int) == old(out)@,
        spec_le_u64(final(out)@, old(out)@.len() as int) == v,
{
    let ghost start = out@.len() as int;
    let mut rest: u64 = v;
    let mut i: usize = 0;
    proof {
        reveal_with_fuel(pow256, 1);
        reveal_with_fuel(partial_le, 1);
    }
    while i < 8
        invariant
            i <= 8,
            0 <= start,
            out@.len() == start + i,
            out@.subrange(0, start) == old(out)@,
            rest as int == v as int / pow256(i as nat),
            v as int % pow256(i as nat) == partial_le(out@, start, i as nat),
        decreases 8 - i,
    {
        let ghost before = out@;
        out.push((rest % 256) as u8);
        proof {
            lemma_partial_le_same(before, out@, start, i as nat);
            lemma_step(out@, start, i as nat, v as int, rest as int);
            assert(out@.subrange(0, start) =~= before.subrange(0, start));
        }
        rest = rest / 256;
        i = i + 1;
    }
    proof {
        reveal_with_fuel(pow256, 9);
        reveal_with_fuel(partial_le, 9);
        assert(pow256(2) == 0x1_0000);
        assert(pow256(4) == 0x1_0000_0000);
        assert(pow256(6) == 0x1_0000_0000_0000);
        assert(pow256(8) == 0x1_0000_0000_0000_0000);
        vstd::arithmetic::div_mod::lemma_small_mod(v as nat, pow256(8) as nat);
        assert(partial_le(out@, start, 8) == spec_le_u64(out@, start));
    }
}

/// `256` to the power `n`.
pub open spec fn pow256(n: nat) -> int
    decreases n,
{
    if n == 0 {
        1
    } else {
        256 * pow256((n - 1) as nat)
    }
}

/// The little-endian value of the `n` bytes of `s` from `at`.
pub open spec fn partial_le(s: Seq<u8>, at: int, n: nat) -> int
    decreases n,
{
    if n == 0 {
        0
    } else {
        partial_le(s, at, (n - 1) as nat) + s[at + n - 1] * pow256((n - 1) as nat)
    }
}

proof fn lemma_pow256_positive(n: nat)
    ensures
        pow256(n) > 0,
    decreases n,
{
    if n > 0 {
        lemma_pow256_positive((n - 1) as nat);
    }
}

proof fn lemma_partial_le_same(s: Seq<u8>, t: Seq<u8>, at: int, n: nat)
    requires
        0 <= at,
        s.len() >= at + n,
        t.len() >= at + n,
        forall|j: int| 0 <= j < at + n ==> s[j] == t[j],
    ensures
        partial_le(s, at, n) == partial_le(t, at, n),
    decreases n,
{
    if n > 0 {
        lemma_partial_le_same(s, t, at, (n - 1) as nat);
    }
}

proof fn lemma_step(s: Seq<u8>, at: int, i: nat, v: int, rest: int)
    requires
        0 <= v,
        0 <= at,
        s.len() == at + i + 1,
        rest == v / pow256(i),
        s[at + i] == rest % 256,
        v % pow256(i) == partial_le(s, at, i),
    ensures
        rest / 256 == v / pow256(i + 1),
        v % pow256(i + 1) == partial_le(s, at, i + 1),
{
    let p = pow256(i);
    lemma_pow256_positive(i);
    assert(pow256(i + 1) == p * 256);
    vstd::arithmetic::div_mod::lemma_div_denominator(v, p, 256);
    vstd::arithmetic::div_mod::lemma_mod_breakdown(v, p, 256);
    assert(partial_le(s, at, i + 1) == partial_le(s, at, i) + s[at + i] * p);
    assert(p * ((v / p) % 256) == s[at + i] * p) by (nonlinear_arith)
        requires
            s[at + i] == (v / p) % 256,
    ;
}

/// Encodes a verdict in the fixed output layout: `is_liquidatable`, `equity`
/// and `pnl_is_positive` as eight-byte little-endian fields, the flags as one
/// or zero.
pub fn encode_risk_output(r: &RiskResult) -> (out: Vec<u8>)
    ensures
        out@.len() == RISK_OUTPUT_LEN,
        spec_le_u64(out@, 0) == (if r.is_liquidatable { 1int } else { 0 }),
        spec_le_u64(out@, 8) == r.equity,
        spec_le_u64(out@, 16) == (if r.pnl_is_positive { 1int } else { 0 }),
        spec_decode_risk(out@) == *r,
{
    let mut out: Vec<u8> = Vec::new();
    write_u64_le(&mut out, if r.is_liquidatable { 1 } else { 0 });
    write_u64_le(&mut out, r.equity);
    let ghost mid = out@;
    write_u64_le(&mut out, if r.pnl_is_positive { 1 } else { 0 });
    assert(out@.subrange(0, 16) == mid);
    assert(spec_le_u64(out@, 0) == spec_le_u64(mid, 0));
    assert(spec_le_u64(out@, 8) == spec_le_u64(mid, 8));
    proof {
        lemma_decode_encode(*r, out@);
    }
    out
}

/// Decoding an encoded verdict gives the verdict back.
pub proof fn lemma_decode_encode(r: RiskResult, bytes: Seq<u8>)
    requires
        bytes.len() == RISK_OUTPUT_LEN,
        spec_le_u64(bytes, 0) == (if r.is_liquidatable { 1int } else { 0 }),
        spec_le_u64(bytes, 8) == r.equity,
        spec_le_u64(bytes, 16) == (if r.pnl_is_positive { 1int } else { 0 }),
    ensures
        spec_decode_risk(bytes) == r,
{
}

} // verus!
