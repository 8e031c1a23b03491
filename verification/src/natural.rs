//! Unbounded natural numbers (Candid `nat`): decoding into `u64`, and their
//! decimal renderings.
use crate::text::{decimal, digit_char, push_all, push_str, u64_decimal};
use vstd::prelude::*;

verus! {

/// 2^64, the base of the digits of a `NatValue`.
pub open spec fn digit_base() -> nat {
    18446744073709551616
}

/// The number whose little-endian base-2^64 digits are `d`.
pub open spec fn digits_value(d: Seq<u64>) -> nat
    decreases d.len(),
{
    if d.len() == 0 {
        0
    } else {
        d[0] as nat + digit_base() * digits_value(d.drop_first())
    }
}

/// An unbounded natural number (a Candid `nat`), held as its little-endian
/// base-2^64 digits.
#[derive(Clone, Debug, PartialEq, Eq)]
pub struct NatValue {
    pub digits: Vec<u64>,
}

/// How many base-2^64 digits the number needs (its digits without trailing zeros).
pub open spec fn significant_len(d: Seq<u64>) -> nat
    decreases d.len(),
{
    if d.len() == 0 {
        0
    } else if d.last() == 0 {
        significant_len(d.drop_last())
    } else {
        d.len()
    }
}

/// `decimal` grouped in threes from the right by underscores, as Candid
/// renders a `nat`: `1_000_000`.
pub open spec fn grouped(s: Seq<char>) -> Seq<char>
    decreases s.len(),
{
    if s.len() <= 3 {
        s
    } else {
        grouped(s.take(s.len() - 3)) + seq!['_'] + s.skip(s.len() - 3)
    }
}

/// How Candid displays a `nat`.
pub open spec fn nat_display(n: nat) -> Seq<char> {
    grouped(decimal(n))
}

/// How a `nat` prints with `{:?}`: `Nat(1000000)`.
pub open spec fn nat_debug(n: nat) -> Seq<char> {
    "Nat("@ + decimal(n) + ")"@
}

/// The message with which a `nat` that does not fit a `u64` is refused.
pub open spec fn decode_error_message(n: nat, len: nat) -> Seq<char> {
    "Error parsing a Nat value `"@ + nat_debug(n) + "` to u64: expected a unique u64 value, got "@
        + decimal(len) + "."@
}

proof fn lemma_value_drop_last(d: Seq<u64>)
    requires
        d.len() > 0,
        d.last() == 0,
    ensures
        digits_value(d) == digits_value(d.drop_last()),
    decreases d.len(),
{
    if d.len() == 1 {
        assert(d.drop_first().len() == 0);
        assert(digits_value(d.drop_first()) == 0);
        assert(d.drop_last().len() == 0);
        assert(digits_value(d.drop_last()) == 0);
        assert(d[0] == 0);
    } else {
        assert(d.drop_first().last() == 0);
        lemma_value_drop_last(d.drop_first());
        assert(d.drop_first().drop_last() =~= d.drop_last().drop_first());
        assert(d.drop_last()[0] == d[0]);
        assert(digits_value(d.drop_last()) == d[0] as nat + digit_base() * digits_value(
            d.drop_last().drop_first(),
        ));
    }
}

proof fn lemma_significant_len(d: Seq<u64>)
    ensures
        significant_len(d) <= d.len(),
        digits_value(d) == digits_value(d.take(significant_len(d) as int)),
        significant_len(d) > 0 ==> d[significant_len(d) - 1] != 0,
    decreases d.len(),
{
    if d.len() == 0 {
    } else if d.last() == 0 {
        lemma_value_drop_last(d);
        lemma_significant_len(d.drop_last());
        assert(d.drop_last().take(significant_len(d) as int) =~= d.take(significant_len(d) as int));
    } else {
        assert(d.take(d.len() as int) =~= d);
    }
}

proof fn lemma_value_ge_top(d: Seq<u64>)
    requires
        d.len() >= 2,
        d.last() != 0,
    ensures
        digits_value(d) >= digit_base(),
    decreases d.len(),
{
    let rest = d.drop_first();
    if d.len() == 2 {
        assert(rest.drop_first().len() == 0);
        assert(digits_value(rest.drop_first()) == 0);
        assert(digits_value(rest) == rest[0] as nat);
        assert(rest[0] == d.last());
    } else {
        assert(rest.last() == d.last());
        lemma_value_ge_top(rest);
    }
    assert(digits_value(rest) >= 1);
    assert(digit_base() * digits_value(rest) >= digit_base()) by (nonlinear_arith)
        requires
            digits_value(rest) >= 1,
    ;
}

proof fn lemma_all_zero_value(d: Seq<u64>)
    requires
        forall|i: int| 0 <= i < d.len() ==> d[i] == 0,
    ensures
        digits_value(d) == 0,
    decreases d.len(),
{
    if d.len() > 0 {
        lemma_all_zero_value(d.drop_first());
    }
}

proof fn lemma_nonzero_digit_value(d: Seq<u64>, i: int)
    requires
        0 <= i < d.len(),
        d[i] != 0,
    ensures
        digits_value(d) > 0,
    decreases d.len(),
{
    if i > 0 {
        lemma_nonzero_digit_value(d.drop_first(), i - 1);
        assert(digit_base() * digits_value(d.drop_first()) > 0) by (nonlinear_arith)
            requires
                digits_value(d.drop_first()) > 0,
        ;
    }
}

impl NatValue {
    pub open spec fn value(&self) -> nat {
        digits_value(self.digits@)
    }

    /// The number `v`.
    pub fn from_u64(v: u64) -> (n: NatValue)
        ensures
            n.value() == v as nat,
            n.digits@.len() <= 1,
    {
        let mut digits: Vec<u64> = Vec::new();
        if v != 0 {
            digits.push(v);
            assert(digits_value(digits@.drop_first()) == 0);
        }
        NatValue { digits }
    }

    /// A copy of the number.
    pub fn duplicate(&self) -> (n: NatValue)
        ensures
            n.digits@ == self.digits@,
    {
        let mut digits: Vec<u64> = Vec::new();
        let mut i: usize = 0;
        while i < self.digits.len()
            invariant
                i <= self.digits@.len(),
                digits@ == self.digits@.take(i as int),
            decreases self.digits@.len() - i,
        {
            digits.push(self.digits[i]);
            i = i + 1;
            assert(self.digits@.take(i as int) =~= self.digits@.take(i - 1).push(self.digits@[i - 1]));
        }
        assert(self.digits@.take(i as int) =~= self.digits@);
        NatValue { digits }
    }

    /// The number held by the given little-endian base-2^64 digits.
    pub fn from_digits(digits: Vec<u64>) -> (n: NatValue)
        ensures
            n.digits@ == digits@,
    {
        NatValue { digits }
    }

    /// Whether the number is zero.
    pub fn is_zero(&self) -> (res: bool)
        ensures
            res == (self.value() == 0),
    {
        let mut i: usize = 0;
        while i < self.digits.len()
            invariant
                i <= self.digits@.len(),
                forall|j: int| 0 <= j < i ==> self.digits@[j] == 0,
            decreases self.digits@.len() - i,
        {
            if self.digits[i] != 0 {
                proof {
                    lemma_nonzero_digit_value(self.digits@, i as int);
                }
                return false;
            }
            i = i + 1;
        }
        proof {
            lemma_all_zero_value(self.digits@);
        }
        true
    }

    /// The number of significant base-2^64 digits.
    pub fn significant_len(&self) -> (len: usize)
        ensures
            len as nat == significant_len(self.digits@),
    {
        let mut len = self.digits.len();
        assert(self.digits@.take(len as int) =~= self.digits@);
        while len > 0 && self.digits[len - 1] == 0
            invariant
                len <= self.digits@.len(),
                significant_len(self.digits@) == significant_len(self.digits@.take(len as int)),
            decreases len,
        {
            assert(self.digits@.take(len as int).drop_last() =~= self.digits@.take(len - 1));
            len = len - 1;
        }
        if len > 0 {
            assert(self.digits@.take(len as int).last() != 0);
        }
        len
    }

    /// Divides by ten: the quotient and the remainder.
    pub fn div_rem_10(&self) -> (res: (NatValue, u64))
        ensures
            res.0.value() == self.value() / 10,
            res.1 as nat == self.value() % 10,
            res.0.digits@.len() == self.digits@.len(),
    {
        let n = self.digits.len();
        let mut q: Vec<u64> = Vec::new();
        let mut k: usize = 0;
        while k < n
            invariant
                k <= n == self.digits@.len(),
                q@.len() == k,
                forall|j: int| 0 <= j < k ==> q@[j] == 0,
            decreases n - k,
        {
            q.push(0);
            k = k + 1;
        }
        let mut r: u64 = 0;
        let mut i: usize = n;
        assert(self.digits@.skip(n as int).len() == 0);
        assert(q@.skip(n as int).len() == 0);
        while i > 0
            invariant
                i <= n == self.digits@.len(),
                q@.len() == n,
                r < 10,
                digits_value(self.digits@.skip(i as int)) == 10 * digits_value(q@.skip(i as int))
                    + r,
            decreases i,
        {
            let ghost old_q = q@;
            let ghost old_r = r;
            let ghost qs = digits_value(q@.skip(i as int));
            let d = self.digits[i - 1];
            let cur: u128 = (r as u128) * 18446744073709551616u128 + (d as u128);
            let qd = (cur / 10) as u64;
            let rd = (cur % 10) as u64;
            assert(cur / 10 < 18446744073709551616) by (nonlinear_arith)
                requires
                    cur == old_r * 18446744073709551616 + d,
                    old_r < 10,
                    d < 18446744073709551616,
            ;
            q.set(i - 1, qd);
            r = rd;
            i = i - 1;
            proof {
                assert(self.digits@.skip(i as int).drop_first() =~= self.digits@.skip(i + 1));
                assert(q@.skip(i as int).drop_first() =~= old_q.skip(i + 1));
                assert(q@.skip(i as int)[0] == qd);
                assert(self.digits@.skip(i as int)[0] == d);
                let vd = digits_value(self.digits@.skip(i as int));
                let vq = digits_value(q@.skip(i as int));
                assert(vd == d + digit_base() * digits_value(self.digits@.skip(i + 1)));
                assert(vq == qd + digit_base() * qs);
                assert(vd == 10 * vq + r) by (nonlinear_arith)
                    requires
                        vd == d + digit_base() * (10 * qs + old_r),
                        vq == qd + digit_base() * qs,
                        cur == old_r * digit_base() + d,
                        qd == cur / 10,
                        r == cur % 10,
                        digit_base() == 18446744073709551616,
                ;
            }
        }
        assert(self.digits@.skip(0) =~= self.digits@);
        assert(q@.skip(0) =~= q@);
        let quotient = NatValue { digits: q };
        proof {
            let v = self.value();
            let vq = quotient.value();
            assert(v / 10 == vq && v % 10 == r) by (nonlinear_arith)
                requires
                    v == 10 * vq + r,
                    r < 10,
            ;
        }
        (quotient, r)
    }

    /// The decimal rendering of the number.
    pub fn to_decimal(&self) -> (chars: Vec<char>)
        ensures
            chars@ == decimal(self.value()),
        decreases self.value(),
    {
        let (q, r) = self.div_rem_10();
        let c = if r == 0 {
            '0'
        } else if r == 1 {
            '1'
        } else if r == 2 {
            '2'
        } else if r == 3 {
            '3'
        } else if r == 4 {
            '4'
        } else if r == 5 {
            '5'
        } else if r == 6 {
            '6'
        } else if r == 7 {
            '7'
        } else if r == 8 {
            '8'
        } else {
            '9'
        };
        assert(c == digit_char(r as nat));
        if q.is_zero() {
            let mut v: Vec<char> = Vec::new();
            v.push(c);
            assert(v@ =~= decimal(self.value()));
            v
        } else {
            let mut v = q.to_decimal();
            v.push(c);
            v
        }
    }

    /// The number as Candid displays it: `1_000_000`.
    pub fn display(&self) -> (chars: Vec<char>)
        ensures
            chars@ == nat_display(self.value()),
    {
        let d = self.to_decimal();
        group_in_threes(&d)
    }

    /// The number as it prints with `{:?}`: `Nat(1000000)`.
    pub fn debug(&self) -> (chars: Vec<char>)
        ensures
            chars@ == nat_debug(self.value()),
    {
        let mut out: Vec<char> = Vec::new();
        push_str(&mut out, "Nat(");
        let d = self.to_decimal();
        push_all(&mut out, &d);
        push_str(&mut out, ")");
        out
    }

    /// Whether the number is at least `v`.
    pub fn ge_u64(&self, v: u64) -> (res: bool)
        ensures
            res == (self.value() >= v as nat),
    {
        let len = self.significant_len();
        proof {
            lemma_significant_len(self.digits@);
        }
        if len >= 2 {
            proof {
                let s = self.digits@.take(len as int);
                assert(s.last() == self.digits@[len - 1]);
                lemma_value_ge_top(s);
            }
            true
        } else if len == 1 {
            proof {
                let s = self.digits@.take(1);
                assert(s.drop_first().len() == 0);
                assert(digits_value(s.drop_first()) == 0);
                assert(digits_value(s) == self.digits@[0] as nat);
            }
            self.digits[0] >= v
        } else {
            proof {
                assert(self.digits@.take(0).len() == 0);
                assert(digits_value(self.digits@.take(0)) == 0);
            }
            v == 0
        }
    }
}

/// Decodes a number that fits into a `u64`; refuses one that does not.
pub fn decode_nat_to_u64(value: &NatValue) -> (res: Result<u64, String>)
    ensures
        match res {
            Ok(v) => value.value() < digit_base() && v as nat == value.value(),
            Err(msg) => value.value() >= digit_base() && msg@ == decode_error_message(
                value.value(),
                significant_len(value.digits@),
            ),
        },
{
    let len = value.significant_len();
    proof {
        lemma_significant_len(value.digits@);
    }
    if len == 0 {
        proof {
            assert(value.digits@.take(0).len() == 0);
            assert(digits_value(value.digits@.take(0)) == 0);
        }
        Ok(0)
    } else if len == 1 {
        proof {
            let s = value.digits@.take(1);
            assert(s.drop_first().len() == 0);
            assert(digits_value(s.drop_first()) == 0);
            assert(digits_value(s) == value.digits@[0] as nat);
        }
        Ok(value.digits[0])
    } else {
        proof {
            let s = value.digits@.take(len as int);
            assert(s.last() == value.digits@[len - 1]);
            lemma_value_ge_top(s);
        }
        let mut msg: Vec<char> = Vec::new();
        push_str(&mut msg, "Error parsing a Nat value `");
        let dbg = value.debug();
        push_all(&mut msg, &dbg);
        push_str(&mut msg, "` to u64: expected a unique u64 value, got ");
        let count = u64_decimal(len as u64);
        push_all(&mut msg, &count);
        push_str(&mut msg, ".");
        Err(crate::text::string_from_chars(&msg))
    }
}

/// Groups decimal digits in threes from the right, separated by underscores.
pub fn group_in_threes(s: &Vec<char>) -> (res: Vec<char>)
    ensures
        res@ == grouped(s@),
    decreases s@.len(),
{
    let n = s.len();
    if n <= 3 {
        let mut out: Vec<char> = Vec::new();
        push_all(&mut out, s);
        return out;
    }
    let mut head: Vec<char> = Vec::new();
    let mut i: usize = 0;
    while i < n - 3
        invariant
            3 < n == s@.len(),
            i <= n - 3,
            head@ == s@.take(i as int),
        decreases n - 3 - i,
    {
        head.push(s[i]);
        i = i + 1;
        assert(s@.take(i as int) =~= s@.take(i - 1).push(s@[i - 1]));
    }
    let mut out = group_in_threes(&head);
    out.push('_');
    out.push(s[n - 3]);
    out.push(s[n - 2]);
    out.push(s[n - 1]);
    assert(s@.skip(n - 3) =~= seq![s@[n - 3], s@[n - 2], s@[n - 1]]);
    assert(out@ =~= grouped(s@));
    out
}

} // verus!
