//! The base-10 string encoding of fixed-point values.
//!
//! Every numeric value crosses the library boundary as a base-10 ASCII
//! string, so that adapters in any host language can carry 256-bit values
//! without precision loss. Parsing and formatting are exact: the parser
//! accepts precisely the non-empty all-digit strings whose value fits in
//! 256 bits, and the formatter emits the canonical digits of the value.

use vstd::prelude::*;

use crate::fixed_point::{p256, FixedPoint};
use crate::wide::{div_rem_wide, mul_wide, U512};

verus! {

/// ASCII digit test.
pub open spec fn is_ascii_digit(b: u8) -> bool {
    48 <= b <= 57
}

/// Every byte of the sequence is an ASCII digit.
pub open spec fn all_digits(s: Seq<u8>) -> bool {
    forall|i: int| 0 <= i < s.len() ==> is_ascii_digit(#[trigger] s[i])
}

/// The number a digit string denotes, most significant digit first.
pub open spec fn dec_val(s: Seq<u8>) -> nat
    decreases s.len(),
{
    if s.len() == 0 {
        0
    } else {
        dec_val(s.drop_last()) * 10 + (if s.last() >= 48 {
            (s.last() - 48) as nat
        } else {
            0
        })
    }
}

/// Powers of ten.
pub open spec fn pow10(n: nat) -> nat
    decreases n,
{
    if n == 0 {
        1
    } else {
        10 * pow10((n - 1) as nat)
    }
}

/// Appending digits never shrinks the value.
proof fn lemma_dec_val_take_step(s: Seq<u8>, i: int)
    requires
        0 <= i < s.len(),
    ensures
        dec_val(s.take(i + 1)) == dec_val(s.take(i)) * 10 + (if s[i] >= 48 {
            (s[i] - 48) as nat
        } else {
            0
        }),
    decreases s.len(),
{
    assert(s.take(i + 1).drop_last() =~= s.take(i));
    assert(s.take(i + 1).last() == s[i]);
}

/// The value of a longer prefix dominates the value of a shorter one.
proof fn lemma_dec_val_take_mono(s: Seq<u8>, i: int, j: int)
    requires
        0 <= i <= j <= s.len(),
    ensures
        dec_val(s.take(i)) <= dec_val(s.take(j)),
    decreases j - i,
{
    if i < j {
        lemma_dec_val_take_mono(s, i, j - 1);
        lemma_dec_val_take_step(s, j - 1);
    }
}

/// Prepending a digit adds its weighted value.
proof fn lemma_dec_val_prepend(d: u8, t: Seq<u8>)
    ensures
        dec_val(seq![d].add(t)) == (if d >= 48 {
            (d - 48) as nat
        } else {
            0
        }) * pow10(t.len()) + dec_val(t),
    decreases t.len(),
{
    let s = seq![d].add(t);
    if t.len() == 0 {
        assert(s.drop_last() =~= Seq::<u8>::empty());
        assert(s.last() == d);
        assert(dec_val(Seq::<u8>::empty()) == 0);
        assert(t =~= Seq::<u8>::empty());
        assert(pow10(0) == 1);
    } else {
        assert(s.drop_last() =~= seq![d].add(t.drop_last()));
        assert(s.last() == t.last());
        lemma_dec_val_prepend(d, t.drop_last());
        let dv: nat = if d >= 48 {
            (d - 48) as nat
        } else {
            0
        };
        let tv: nat = if t.last() >= 48 {
            (t.last() - 48) as nat
        } else {
            0
        };
        assert(dec_val(s) == dec_val(s.drop_last()) * 10 + tv);
        assert(dec_val(s.drop_last()) == dv * pow10((t.len() - 1) as nat) + dec_val(t.drop_last()));
        assert(dec_val(t) == dec_val(t.drop_last()) * 10 + tv);
        assert((dv * pow10((t.len() - 1) as nat) + dec_val(t.drop_last())) * 10 == dv * (10
            * pow10((t.len() - 1) as nat)) + dec_val(t.drop_last()) * 10) by (nonlinear_arith);
        assert(pow10(t.len()) == 10 * pow10((t.len() - 1) as nat));
        assert(dec_val(s) == dv * pow10(t.len()) + dec_val(t));
    }
}

/// Parses a non-empty all-digit byte string into a value, failing exactly
/// when the string is empty, holds a non-digit, or denotes a value of
/// 256 bits or more.
pub fn from_dec_bytes(s: &[u8]) -> (r: Option<FixedPoint>)
    ensures
        match r {
            Some(v) => s@.len() > 0 && all_digits(s@) && dec_val(s@) < p256() && v@ == dec_val(s@),
            None => s@.len() == 0 || !all_digits(s@) || dec_val(s@) >= p256(),
        },
{
    let n = s.len();
    if n == 0 {
        return None;
    }
    let mut acc = FixedPoint::zero();
    let mut i: usize = 0;
    let ten = FixedPoint::from_u64(10);
    while i < n
        invariant
            0 <= i <= n,
            n == s@.len(),
            acc@ == dec_val(s@.take(i as int)),
            ten@ == 10,
            forall|j: int| 0 <= j < i ==> is_ascii_digit(#[trigger] s@[j]),
        decreases n - i,
    {
        let b = s[i];
        if b < 48 || b > 57 {
            return None;
        }
        let w = mul_wide(&acc, &ten);
        let (low, high) = w.split();
        proof {
            lemma_dec_val_take_step(s@, i as int);
            lemma_dec_val_take_mono(s@, i + 1, s@.len() as int);
            assert(s@.take(s@.len() as int) =~= s@);
        }
        if !high.is_zero() {
            proof {
                assert(high@ >= 1);
                assert(high@ * p256() >= 1 * p256()) by (nonlinear_arith)
                    requires
                        high@ >= 1,
                ;
            }
            return None;
        }
        let d = FixedPoint::from_u64((b - 48) as u64);
        let (sum, carry) = low.overflowing_add(&d);
        if carry {
            return None;
        }
        acc = sum;
        i = i + 1;
    }
    proof {
        assert(s@.take(n as int) =~= s@);
    }
    Some(acc)
}

/// Formats a value as its canonical base-10 digits: non-empty, all
/// digits, no leading zero unless the value is zero itself.
pub fn to_dec_bytes(x: &FixedPoint) -> (r: Vec<u8>)
    ensures
        r@.len() > 0,
        all_digits(r@),
        dec_val(r@) == x@,
        r@.len() > 1 ==> r@[0] != 48,
{
    if x.is_zero() {
        let mut out: Vec<u8> = Vec::new();
        out.push(48);
        proof {
            assert(out@.drop_last() =~= Seq::<u8>::empty());
            assert(out@.last() == 48);
            assert(dec_val(Seq::<u8>::empty()) == 0);
        }
        return out;
    }
    let ten = FixedPoint::from_u64(10);
    let mut tmp: Vec<u8> = Vec::new();
    let mut cur = *x;
    proof {
        assert(tmp@.reverse() =~= Seq::<u8>::empty());
    }
    proof {
        assert(pow10(0) == 1);
        assert(dec_val(Seq::<u8>::empty()) == 0);
    }
    while !cur.is_zero()
        invariant
            ten@ == 10,
            x@ == cur@ * pow10(tmp@.len()) + dec_val(tmp@.reverse()),
            all_digits(tmp@),
            tmp@.len() > 0 ==> (cur@ > 0 || tmp@.last() != 48),
            cur@ == 0 ==> tmp@.len() > 0,
            x@ > 0,
        decreases cur@,
    {
        let wide = U512::from_fixed(&cur);
        proof {
            cur.lemma_bound();
            vstd::arithmetic::mul::lemma_mul_inequality(1, 10, p256() as int);
        }
        let (q, rem) = div_rem_wide(&wide, &ten);
        proof {
            rem.lemma_small();
        }
        let d: u8 = (rem.l0 as u8) + 48;
        let ghost old_tmp = tmp@;
        tmp.push(d);
        cur = q;
        proof {
            assert(tmp@.reverse() =~= seq![d].add(old_tmp.reverse()));
            lemma_dec_val_prepend(d, old_tmp.reverse());
            assert((10 * q@ + rem@) * pow10(old_tmp.len()) == q@ * (10 * pow10(old_tmp.len()))
                + rem@ * pow10(old_tmp.len())) by (nonlinear_arith);
        }
    }
    let mut out: Vec<u8> = Vec::new();
    let mut j: usize = tmp.len();
    while j > 0
        invariant
            0 <= j <= tmp@.len(),
            out@ =~= tmp@.subrange(j as int, tmp@.len() as int).reverse(),
        decreases j,
    {
        let b = tmp[j - 1];
        out.push(b);
        proof {
            assert(out@ =~= tmp@.subrange(j - 1, tmp@.len() as int).reverse());
        }
        j = j - 1;
    }
    proof {
        assert(tmp@.subrange(0, tmp@.len() as int) =~= tmp@);
        assert(out@ =~= tmp@.reverse());
        assert(out@[0] == tmp@.last());
    }
    out
}

} // verus!
