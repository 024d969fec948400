//! The signable payload: a deterministic, length-prefixed serialization of
//! `(optional salt, sequence number, value)`. Each segment carries its own
//! length or terminator, so distinct triples never serialize to the same
//! byte string.
#![allow(unused_imports)]
use vstd::prelude::*;

verus! {

/// Decimal ASCII representation of `n`, most significant digit first,
/// with no leading zeroes (a single `0` for zero).
pub open spec fn dec_rep(n: nat) -> Seq<u8>
    decreases n,
{
    if n < 10 {
        seq![(48 + n) as u8]
    } else {
        dec_rep(n / 10) + seq![(48 + n % 10) as u8]
    }
}

/// The literal tag `4:salt` that opens the salt segment.
pub open spec fn salt_tag() -> Seq<u8> {
    seq![52u8, 58u8, 115u8, 97u8, 108u8, 116u8]
}

/// The literal tag `3:seqi` that opens the sequence-number segment.
pub open spec fn seq_tag() -> Seq<u8> {
    seq![51u8, 58u8, 115u8, 101u8, 113u8, 105u8]
}

/// The literal tag `1:v` that opens the value segment.
pub open spec fn value_tag() -> Seq<u8> {
    seq![49u8, 58u8, 118u8]
}

/// The salt segment: `4:salt`, the decimal length of the salt, `:`,
/// then the raw salt bytes.
pub open spec fn salt_field(s: Seq<u8>) -> Seq<u8> {
    salt_tag() + dec_rep(s.len()) + seq![58u8] + s
}

/// What the payload opens with: the salt segment when a salt is present,
/// nothing otherwise.
pub open spec fn salt_part(salt: Option<Seq<u8>>) -> Seq<u8> {
    match salt {
        Some(s) => salt_field(s),
        None => Seq::<u8>::empty(),
    }
}

/// The sequence-number segment: `3:seqi`, the decimal sequence number,
/// then the terminator `e`.
pub open spec fn seq_field(q: nat) -> Seq<u8> {
    seq_tag() + dec_rep(q) + seq![101u8]
}

/// The value segment: `1:v`, the decimal length of the value, `:`,
/// then the raw value bytes.
pub open spec fn value_field(v: Seq<u8>) -> Seq<u8> {
    value_tag() + dec_rep(v.len()) + seq![58u8] + v
}

/// The full signable payload of a `(salt, sequence number, value)` triple:
/// a pure function of the triple, with no hidden state.
pub open spec fn signable_spec(salt: Option<Seq<u8>>, q: nat, v: Seq<u8>) -> Seq<u8> {
    salt_part(salt) + seq_field(q) + value_field(v)
}

/// A decimal representation has at least one digit.
pub proof fn lemma_dec_rep_min_len(n: nat)
    ensures
        dec_rep(n).len() >= 1,
    decreases n,
{
    if n >= 10 {
        lemma_dec_rep_min_len(n / 10);
    }
}

/// A larger number never has a shorter decimal representation.
pub proof fn lemma_dec_rep_len_monotone(a: nat, b: nat)
    requires
        a <= b,
    ensures
        dec_rep(a).len() <= dec_rep(b).len(),
    decreases b,
{
    if b < 10 {
    } else if a < 10 {
        lemma_dec_rep_min_len(b / 10);
    } else {
        vstd::arithmetic::div_mod::lemma_div_is_ordered(a as int, b as int, 10);
        vstd::arithmetic::div_mod::lemma_div_decreases(b as int, 10);
        lemma_dec_rep_len_monotone(a / 10, b / 10);
    }
}

/// Distinct numbers have distinct decimal representations.
pub proof fn lemma_dec_rep_injective(a: nat, b: nat)
    requires
        dec_rep(a) == dec_rep(b),
    ensures
        a == b,
    decreases a,
{
    if a < 10 && b < 10 {
        assert(dec_rep(a)[0] == (48 + a) as u8);
        assert(dec_rep(b)[0] == (48 + b) as u8);
        assert((48 + a) as u8 == 48 + a);
        assert((48 + b) as u8 == 48 + b);
        assert(a == b);
    } else if a >= 10 && b >= 10 {
        let la = dec_rep(a / 10).len() as int;
        let lb = dec_rep(b / 10).len() as int;
        assert(dec_rep(a).len() == la + 1);
        assert(dec_rep(b).len() == lb + 1);
        assert(dec_rep(a)[la] == (48 + a % 10) as u8);
        assert(dec_rep(b)[lb] == (48 + b % 10) as u8);
        assert(a % 10 < 10);
        assert(b % 10 < 10);
        assert((48 + a % 10) as u8 == 48 + a % 10);
        assert((48 + b % 10) as u8 == 48 + b % 10);
        assert(a % 10 == b % 10);
        assert(la == lb);
        assert(dec_rep(a).subrange(0, la) =~= dec_rep(a / 10));
        assert(dec_rep(b).subrange(0, lb) =~= dec_rep(b / 10));
        assert(dec_rep(a / 10) == dec_rep(b / 10));
        vstd::arithmetic::div_mod::lemma_div_decreases(a as int, 10);
        lemma_dec_rep_injective(a / 10, b / 10);
        assert(a / 10 == b / 10);
        vstd::arithmetic::div_mod::lemma_fundamental_div_mod(a as int, 10);
        vstd::arithmetic::div_mod::lemma_fundamental_div_mod(b as int, 10);
        assert(a == 10 * (a / 10) + a % 10);
        assert(b == 10 * (b / 10) + b % 10);
        assert(a == b);
    } else if a < 10 {
        lemma_dec_rep_min_len(b / 10);
        assert(dec_rep(b).len() >= 2);
        assert(false);
    } else {
        lemma_dec_rep_min_len(a / 10);
        assert(dec_rep(a).len() >= 2);
        assert(false);
    }
}

/// Two byte strings that agree outside a middle segment of one length but
/// differ inside it are distinct.
pub proof fn lemma_concat_mid_differs(a: Seq<u8>, x: Seq<u8>, y: Seq<u8>, b: Seq<u8>)
    requires
        x.len() == y.len(),
        x != y,
    ensures
        a + x + b != a + y + b,
{
    if a + x + b == a + y + b {
        assert forall|i: int| 0 <= i < x.len() implies x[i] == y[i] by {
            assert((a + x + b)[a.len() + i] == x[i]);
            assert((a + y + b)[a.len() + i] == y[i]);
        }
        assert(x =~= y);
        assert(false);
    }
}

/// The signable payload is deterministic: two payloads derived from one
/// and the same `(salt, seq, value)` triple are byte-for-byte identical.
pub proof fn lemma_signable_deterministic(
    salt: Option<Seq<u8>>,
    q: nat,
    v: Seq<u8>,
    r1: Seq<u8>,
    r2: Seq<u8>,
)
    requires
        r1 == signable_spec(salt, q, v),
        r2 == signable_spec(salt, q, v),
    ensures
        r1 == r2,
{
}

/// Changing only the salt changes the payload: adding one, dropping one,
/// or replacing one with any other salt, of the same length or not.
pub proof fn lemma_signable_salt_injective(
    s1: Option<Seq<u8>>,
    s2: Option<Seq<u8>>,
    q: nat,
    v: Seq<u8>,
)
    requires
        s1 != s2,
    ensures
        signable_spec(s1, q, v) != signable_spec(s2, q, v),
{
    let t = seq_field(q) + value_field(v);
    match (s1, s2) {
        (Some(x), Some(y)) => {
            if x.len() == y.len() {
                let a = salt_tag() + dec_rep(x.len()) + seq![58u8];
                assert(signable_spec(s1, q, v) =~= a + x + t);
                assert(signable_spec(s2, q, v) =~= a + y + t);
                lemma_concat_mid_differs(a, x, y, t);
            } else {
                if x.len() < y.len() {
                    lemma_dec_rep_len_monotone(x.len(), y.len());
                } else {
                    lemma_dec_rep_len_monotone(y.len(), x.len());
                }
                assert(signable_spec(s1, q, v).len() != signable_spec(s2, q, v).len());
            }
        },
        (Some(x), None) => {
            assert(signable_spec(s1, q, v)[0] == 52u8);
            assert(signable_spec(s2, q, v)[0] == 51u8);
            assert(signable_spec(s1, q, v) != signable_spec(s2, q, v));
        },
        (None, Some(y)) => {
            assert(signable_spec(s1, q, v)[0] == 51u8);
            assert(signable_spec(s2, q, v)[0] == 52u8);
            assert(signable_spec(s1, q, v) != signable_spec(s2, q, v));
        },
        (None, None) => {
            assert(false);
        },
    }
}

/// Changing only the sequence number changes the payload.
pub proof fn lemma_signable_seq_injective(salt: Option<Seq<u8>>, q1: nat, q2: nat, v: Seq<u8>)
    requires
        q1 != q2,
    ensures
        signable_spec(salt, q1, v) != signable_spec(salt, q2, v),
{
    if dec_rep(q1).len() == dec_rep(q2).len() {
        if dec_rep(q1) == dec_rep(q2) {
            lemma_dec_rep_injective(q1, q2);
        }
        let a = salt_part(salt) + seq_tag();
        let b = seq![101u8] + value_field(v);
        assert(signable_spec(salt, q1, v) =~= a + dec_rep(q1) + b);
        assert(signable_spec(salt, q2, v) =~= a + dec_rep(q2) + b);
        lemma_concat_mid_differs(a, dec_rep(q1), dec_rep(q2), b);
    } else {
        assert(signable_spec(salt, q1, v).len() != signable_spec(salt, q2, v).len());
    }
}

/// Changing only the value changes the payload.
pub proof fn lemma_signable_value_injective(salt: Option<Seq<u8>>, q: nat, v1: Seq<u8>, v2: Seq<u8>)
    requires
        v1 != v2,
    ensures
        signable_spec(salt, q, v1) != signable_spec(salt, q, v2),
{
    if v1.len() == v2.len() {
        let a = salt_part(salt) + seq_field(q) + value_tag() + dec_rep(v1.len()) + seq![58u8];
        let b = Seq::<u8>::empty();
        assert(signable_spec(salt, q, v1) =~= a + v1 + b);
        assert(signable_spec(salt, q, v2) =~= a + v2 + b);
        lemma_concat_mid_differs(a, v1, v2, b);
    } else {
        if v1.len() < v2.len() {
            lemma_dec_rep_len_monotone(v1.len(), v2.len());
        } else {
            lemma_dec_rep_len_monotone(v2.len(), v1.len());
        }
        assert(signable_spec(salt, q, v1).len() != signable_spec(salt, q, v2).len());
    }
}

/// Appends the decimal ASCII digits of `n` to `out`.
pub fn push_dec(out: &mut Vec<u8>, n: u128)
    ensures
        final(out)@ == old(out)@ + dec_rep(n as nat),
    decreases n,
{
    if n < 10 {
        out.push(48 + n as u8);
    } else {
        proof {
            vstd::arithmetic::div_mod::lemma_div_decreases(n as int, 10);
        }
        push_dec(out, n / 10);
        out.push(48 + (n % 10) as u8);
        assert(out@ =~= old(out)@ + dec_rep(n as nat));
    }
}

/// Appends all of `src` to `out`.
pub fn push_all(out: &mut Vec<u8>, src: &Vec<u8>)
    ensures
        final(out)@ == old(out)@ + src@,
{
    let mut i: usize = 0;
    while i < src.len()
        invariant
            i <= src@.len(),
            out@ == old(out)@ + src@.subrange(0, i as int),
        decreases src@.len() - i,
    {
        out.push(src[i]);
        i = i + 1;
        assert(out@ =~= old(out)@ + src@.subrange(0, i as int));
    }
    assert(out@ =~= old(out)@ + src@);
}

/// Builds the signable payload of `(salt, seq, value)`, exactly as
/// `signable_spec` describes it.
pub fn build_signable(salt: &Option<Vec<u8>>, seq: u128, value: &Vec<u8>) -> (r: Vec<u8>)
    ensures
        r@ == signable_spec(crate::opt_bytes(*salt), seq as nat, value@),
{
    let mut out: Vec<u8> = Vec::new();
    match salt {
        Some(s) => {
            out.push(52);
            out.push(58);
            out.push(115);
            out.push(97);
            out.push(108);
            out.push(116);
            assert(out@ =~= salt_tag());
            push_dec(&mut out, s.len() as u128);
            out.push(58);
            push_all(&mut out, s);
            assert(out@ =~= salt_field(s@));
            assert(out@ =~= salt_part(crate::opt_bytes(*salt)));
        },
        None => {
            assert(out@ =~= salt_part(crate::opt_bytes(*salt)));
        },
    }
    let ghost prefix: Seq<u8> = out@;
    out.push(51);
    out.push(58);
    out.push(115);
    out.push(101);
    out.push(113);
    out.push(105);
    push_dec(&mut out, seq);
    out.push(101);
    assert(out@ =~= prefix + seq_field(seq as nat));
    out.push(49);
    out.push(58);
    out.push(118);
    push_dec(&mut out, value.len() as u128);
    out.push(58);
    push_all(&mut out, value);
    assert(out@ =~= prefix + seq_field(seq as nat) + value_field(value@));
    assert(out@ =~= signable_spec(crate::opt_bytes(*salt), seq as nat, value@));
    out
}

} // verus!
