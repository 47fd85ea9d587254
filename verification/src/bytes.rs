//! Byte strings: lexicographic order and the big-endian form of 64-bit integers.

use vstd::prelude::*;

verus! {

/// `a` comes strictly before `b` in lexicographic byte order.
pub open spec fn lex_lt(a: Seq<u8>, b: Seq<u8>) -> bool
    decreases a.len(),
{
    if b.len() == 0 {
        false
    } else if a.len() == 0 {
        true
    } else if a[0] != b[0] {
        a[0] < b[0]
    } else {
        lex_lt(a.drop_first(), b.drop_first())
    }
}

/// The eight bytes of `n`, most significant first.
pub open spec fn be8(n: u64) -> Seq<u8> {
    seq![
        (n >> 56u64) as u8,
        (n >> 48u64) as u8,
        (n >> 40u64) as u8,
        (n >> 32u64) as u8,
        (n >> 24u64) as u8,
        (n >> 16u64) as u8,
        (n >> 8u64) as u8,
        n as u8,
    ]
}

/// The number whose eight big-endian bytes are `s`.
pub open spec fn from_be8(s: Seq<u8>) -> u64 {
    (s[0] as u64) << 56u64 | (s[1] as u64) << 48u64 | (s[2] as u64) << 40u64 | (s[3] as u64)
        << 32u64 | (s[4] as u64) << 24u64 | (s[5] as u64) << 16u64 | (s[6] as u64) << 8u64 | (
    s[7] as u64)
}

/// The sequence counter that follows the stored value `previous`.
///
/// A missing value counts from nothing, a value that is not eight bytes long counts as zero, and
/// the counter stops at the largest 64-bit number.
pub open spec fn counter_after(previous: Option<Seq<u8>>) -> u64 {
    match previous {
        None => 1,
        Some(bytes) => {
            let seen = if bytes.len() == 8 {
                from_be8(bytes)
            } else {
                0
            };
            if seen == u64::MAX {
                u64::MAX
            } else {
                (seen + 1) as u64
            }
        },
    }
}

/// Reading the eight bytes of a number gives the number back.
pub proof fn be8_round_trip(n: u64)
    ensures
        be8(n).len() == 8,
        from_be8(be8(n)) == n,
{
    assert(((n >> 56u64) as u8 as u64) << 56u64 | ((n >> 48u64) as u8 as u64) << 48u64 | ((n
        >> 40u64) as u8 as u64) << 40u64 | ((n >> 32u64) as u8 as u64) << 32u64 | ((n
        >> 24u64) as u8 as u64) << 24u64 | ((n >> 16u64) as u8 as u64) << 16u64 | ((n
        >> 8u64) as u8 as u64) << 8u64 | (n as u8 as u64) == n) by (bit_vector);
}

/// Writing the number that eight bytes stand for gives the bytes back.
pub proof fn from_be8_round_trip(s: Seq<u8>)
    requires
        s.len() == 8,
    ensures
        be8(from_be8(s)) == s,
{
    let (a, b, c, d, e, f, g, h) = (s[0], s[1], s[2], s[3], s[4], s[5], s[6], s[7]);
    let n = from_be8(s);
    assert(n == (a as u64) << 56u64 | (b as u64) << 48u64 | (c as u64) << 40u64 | (d as u64)
        << 32u64 | (e as u64) << 24u64 | (f as u64) << 16u64 | (g as u64) << 8u64 | (
    h as u64) ==> (n >> 56u64) as u8 == a && (n >> 48u64) as u8 == b && (n >> 40u64) as u8 == c && (
    n >> 32u64) as u8 == d && (n >> 24u64) as u8 == e && (n >> 16u64) as u8 == f && (n
        >> 8u64) as u8 == g && n as u8 == h) by (bit_vector);
    assert(be8(n) =~= s);
}

/// Distinct numbers have distinct big-endian forms.
pub proof fn be8_injective(m: u64, n: u64)
    requires
        be8(m) == be8(n),
    ensures
        m == n,
{
    be8_round_trip(m);
    be8_round_trip(n);
}

/// Big-endian bytes are ordered as the numbers are.
pub proof fn be8_order(m: u64, n: u64)
    ensures
        lex_lt(be8(m), be8(n)) <==> m < n,
{
    let (a, b) = (be8(m), be8(n));
    reveal_with_fuel(lex_lt, 9);
    assert(a.drop_first() =~= a.subrange(1, 8));
    let a1 = a.drop_first();
    let b1 = b.drop_first();
    let a2 = a1.drop_first();
    let b2 = b1.drop_first();
    let a3 = a2.drop_first();
    let b3 = b2.drop_first();
    let a4 = a3.drop_first();
    let b4 = b3.drop_first();
    let a5 = a4.drop_first();
    let b5 = b4.drop_first();
    let a6 = a5.drop_first();
    let b6 = b5.drop_first();
    let a7 = a6.drop_first();
    let b7 = b6.drop_first();
    assert(a1[0] == a[1] && b1[0] == b[1]);
    assert(a2[0] == a[2] && b2[0] == b[2]);
    assert(a3[0] == a[3] && b3[0] == b[3]);
    assert(a4[0] == a[4] && b4[0] == b[4]);
    assert(a5[0] == a[5] && b5[0] == b[5]);
    assert(a6[0] == a[6] && b6[0] == b[6]);
    assert(a7[0] == a[7] && b7[0] == b[7]);
    assert((m < n) <==> ((m >> 56u64) as u8 != (n >> 56u64) as u8 && ((m >> 56u64) as u8) < ((n
        >> 56u64) as u8)) || ((m >> 56u64) as u8 == (n >> 56u64) as u8 && (((m >> 48u64) as u8 != (n
        >> 48u64) as u8 && ((m >> 48u64) as u8) < ((n >> 48u64) as u8)) || ((m >> 48u64) as u8 == (n
        >> 48u64) as u8 && (((m >> 40u64) as u8 != (n >> 40u64) as u8 && ((m >> 40u64) as u8) < ((n
        >> 40u64) as u8)) || ((m >> 40u64) as u8 == (n >> 40u64) as u8 && (((m >> 32u64) as u8 != (n
        >> 32u64) as u8 && ((m >> 32u64) as u8) < ((n >> 32u64) as u8)) || ((m >> 32u64) as u8 == (n
        >> 32u64) as u8 && (((m >> 24u64) as u8 != (n >> 24u64) as u8 && ((m >> 24u64) as u8) < ((n
        >> 24u64) as u8)) || ((m >> 24u64) as u8 == (n >> 24u64) as u8 && (((m >> 16u64) as u8 != (n
        >> 16u64) as u8 && ((m >> 16u64) as u8) < ((n >> 16u64) as u8)) || ((m >> 16u64) as u8 == (n
        >> 16u64) as u8 && (((m >> 8u64) as u8 != (n >> 8u64) as u8 && ((m >> 8u64) as u8) < ((n
        >> 8u64) as u8)) || ((m >> 8u64) as u8 == (n >> 8u64) as u8 && (m as u8)
        < (n as u8))))))))))))))) by (bit_vector);
}

/// The order is strict: no byte string comes before itself.
pub proof fn lex_lt_irreflexive(a: Seq<u8>)
    ensures
        !lex_lt(a, a),
    decreases a.len(),
{
    if a.len() > 0 {
        lex_lt_irreflexive(a.drop_first());
    }
}

/// The order is transitive.
pub proof fn lex_lt_transitive(a: Seq<u8>, b: Seq<u8>, c: Seq<u8>)
    requires
        lex_lt(a, b),
        lex_lt(b, c),
    ensures
        lex_lt(a, c),
    decreases a.len(),
{
    if a.len() > 0 && a[0] == b[0] && b[0] == c[0] {
        lex_lt_transitive(a.drop_first(), b.drop_first(), c.drop_first());
    }
}

/// The order is total: of two distinct byte strings one comes first.
pub proof fn lex_lt_total(a: Seq<u8>, b: Seq<u8>)
    ensures
        a == b || lex_lt(a, b) || lex_lt(b, a),
    decreases a.len(),
{
    if a.len() > 0 && b.len() > 0 && a[0] == b[0] {
        lex_lt_total(a.drop_first(), b.drop_first());
        if a.drop_first() == b.drop_first() {
            assert(a =~= seq![a[0]] + a.drop_first());
            assert(b =~= seq![b[0]] + b.drop_first());
        }
    } else if a.len() == 0 && b.len() == 0 {
        assert(a =~= b);
    }
}

/// Byte strings with a common prefix are ordered as what follows it.
pub proof fn lex_lt_common_prefix(p: Seq<u8>, a: Seq<u8>, b: Seq<u8>)
    ensures
        lex_lt(p + a, p + b) <==> lex_lt(a, b),
    decreases p.len(),
{
    if p.len() == 0 {
        assert(p + a =~= a);
        assert(p + b =~= b);
    } else {
        lex_lt_common_prefix(p.drop_first(), a, b);
        assert((p + a).drop_first() =~= p.drop_first() + a);
        assert((p + b).drop_first() =~= p.drop_first() + b);
    }
}

/// The eight bytes of `n`, most significant first.
pub fn to_be8(n: u64) -> (out: Vec<u8>)
    ensures
        out@ == be8(n),
{
    let mut out: Vec<u8> = Vec::new();
    out.push(#[verifier::truncate] ((n >> 56u64) as u8));
    out.push(#[verifier::truncate] ((n >> 48u64) as u8));
    out.push(#[verifier::truncate] ((n >> 40u64) as u8));
    out.push(#[verifier::truncate] ((n >> 32u64) as u8));
    out.push(#[verifier::truncate] ((n >> 24u64) as u8));
    out.push(#[verifier::truncate] ((n >> 16u64) as u8));
    out.push(#[verifier::truncate] ((n >> 8u64) as u8));
    out.push(#[verifier::truncate] (n as u8));
    assert(out@ =~= be8(n));
    out
}

/// The number that eight big-endian bytes stand for; `None` for any other length.
pub fn read_be8(bytes: &[u8]) -> (out: Option<u64>)
    ensures
        out == (if bytes@.len() == 8 {
            Some(from_be8(bytes@))
        } else {
            None
        }),
{
    if bytes.len() != 8 {
        return None;
    }
    Some(
        (bytes[0] as u64) << 56u64 | (bytes[1] as u64) << 48u64 | (bytes[2] as u64) << 40u64 | (
        bytes[3] as u64) << 32u64 | (bytes[4] as u64) << 24u64 | (bytes[5] as u64) << 16u64 | (
        bytes[6] as u64) << 8u64 | (bytes[7] as u64),
    )
}

/// The stored form of the counter that follows `previous`.
pub fn next_counter(previous: Option<&[u8]>) -> (out: Vec<u8>)
    ensures
        out@ == be8(counter_after(match previous {
            Some(bytes) => Some(bytes@),
            None => None,
        })),
{
    let next: u64 = match previous {
        None => 1,
        Some(bytes) => {
            let seen: u64 = match read_be8(bytes) {
                Some(n) => n,
                None => 0,
            };
            seen.saturating_add(1)
        },
    };
    to_be8(next)
}

/// Whether two byte strings are equal.
pub fn same_bytes(a: &[u8], b: &[u8]) -> (out: bool)
    ensures
        out == (a@ == b@),
{
    if a.len() != b.len() {
        return false;
    }
    let mut i: usize = 0;
    while i < a.len()
        invariant
            i <= a@.len(),
            a@.len() == b@.len(),
            forall|j: int| 0 <= j < i ==> a@[j] == b@[j],
        decreases a@.len() - i,
    {
        if a[i] != b[i] {
            return false;
        }
        i = i + 1;
    }
    assert(a@ =~= b@);
    true
}

/// Whether `a` comes strictly before `b` in lexicographic byte order.
pub fn before(a: &[u8], b: &[u8]) -> (out: bool)
    ensures
        out == lex_lt(a@, b@),
{
    let mut i: usize = 0;
    assert(a@.skip(0) =~= a@ && b@.skip(0) =~= b@);
    while i < a.len() && i < b.len()
        invariant
            i <= a@.len(),
            i <= b@.len(),
            lex_lt(a@, b@) == lex_lt(a@.skip(i as int), b@.skip(i as int)),
        decreases a@.len() - i,
    {
        assert(a@.skip(i as int)[0] == a@[i as int]);
        assert(b@.skip(i as int)[0] == b@[i as int]);
        if a[i] != b[i] {
            return a[i] < b[i];
        }
        assert(a@.skip(i as int).drop_first() =~= a@.skip(i + 1));
        assert(b@.skip(i as int).drop_first() =~= b@.skip(i + 1));
        i = i + 1;
    }
    i < b.len()
}

} // verus!
