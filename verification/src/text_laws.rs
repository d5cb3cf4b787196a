//! Properties of the text helpers: numerals read back as their numbers, and what trimming,
//! suffix stripping and splitting leave.
use crate::text::{
    after_last,
    all_digits,
    decimal,
    decimal_value,
    digit_char,
    digit_value,
    index_value,
    signed_decimal,
    trimmed_end,
    trimmed_start,
    without_suffix,
};
use vstd::prelude::*;
use vstd::seq_lib::lemma_concat_associative;

verus! {

/// Reading the decimal numeral of `n` back gives `n`: it is a non-empty run of digits whose
/// value is `n`, without a leading zero unless `n` is zero.
pub proof fn lemma_decimal_reads_back(n: nat)
    ensures
        decimal(n).len() > 0,
        all_digits(decimal(n)),
        decimal_value(decimal(n)) == n,
        decimal(n)[0] == '0' ==> n == 0,
    decreases n,
{
    if n >= 10 {
        lemma_decimal_reads_back(n / 10);
        let d = decimal(n);
        assert(d.drop_last() =~= decimal(n / 10));
        assert(d[0] == decimal(n / 10)[0]);
        assert(digit_value(digit_char(n % 10)) == n % 10);
        assert(d.last() == digit_char(n % 10));
        assert(decimal_value(d) == decimal_value(decimal(n / 10)) * 10 + n % 10);
        assert((n / 10) * 10 + n % 10 == n);
        assert forall|k: int| 0 <= k < d.len() implies '0' <= #[trigger] d[k] && d[k] <= '9' by {
            if k < d.len() - 1 {
                assert(d[k] == decimal(n / 10)[k]);
            }
        }
    } else {
        assert(digit_value(digit_char(n)) == n);
        let d = decimal(n);
        assert(d.drop_last() =~= seq![]);
        assert(decimal_value(d.drop_last()) == 0);
        assert(decimal_value(d) == n);
    }
}

/// The index that the numeral of `n` stands for is `n`, for every `n` that fits a `usize`.
pub proof fn lemma_index_of_decimal(n: usize)
    ensures
        index_value(decimal(n as nat)) == Some(n),
{
    lemma_decimal_reads_back(n as nat);
}

/// A negative number is written as `-` and the numeral of its magnitude, and another as
/// its numeral.
pub proof fn lemma_signed_decimal_reads_back(n: int)
    ensures
        n < 0 ==> signed_decimal(n)[0] == '-' && decimal_value(signed_decimal(n).skip(1)) == -n,
        n >= 0 ==> decimal_value(signed_decimal(n)) == n && all_digits(signed_decimal(n)),
{
    if n < 0 {
        lemma_decimal_reads_back((-n) as nat);
        assert(signed_decimal(n).skip(1) =~= decimal((-n) as nat));
    } else {
        lemma_decimal_reads_back(n as nat);
    }
}

/// `k` copies of `p` one after another.
pub open spec fn copies(p: Seq<char>, k: nat) -> Seq<char>
    decreases k,
{
    if k == 0 {
        seq![]
    } else {
        p + copies(p, (k - 1) as nat)
    }
}

/// Trimming the copies of `p` from the start of `s` leaves a suffix of `s` after some
/// copies of `p`, which itself does not start with `p` when `p` is not empty.
pub proof fn lemma_trimmed_start(s: Seq<char>, p: Seq<char>)
    ensures
        exists|k: nat| s == copies(p, k) + trimmed_start(s, p),
        p.len() > 0 ==> !(p.len() <= trimmed_start(s, p).len() && trimmed_start(s, p).take(
            p.len() as int,
        ) == p),
    decreases s.len(),
{
    if p.len() > 0 && p.len() <= s.len() && s.take(p.len() as int) == p {
        let rest = s.skip(p.len() as int);
        lemma_trimmed_start(rest, p);
        let k = choose|k: nat| rest == copies(p, k) + trimmed_start(rest, p);
        let tr = trimmed_start(rest, p);
        assert(copies(p, k + 1) == p + copies(p, k));
        assert(trimmed_start(s, p) == tr);
        assert(s =~= p + rest);
        lemma_concat_associative(p, copies(p, k), tr);
    } else {
        assert(s =~= copies(p, 0) + s);
    }
}

/// Trimming the copies of `p` from the end of `s` leaves a prefix of `s` before some
/// copies of `p`, which itself does not end with `p` when `p` is not empty.
pub proof fn lemma_trimmed_end(s: Seq<char>, p: Seq<char>)
    ensures
        exists|k: nat| s == trimmed_end(s, p) + copies(p, k),
        p.len() > 0 ==> !(p.len() <= trimmed_end(s, p).len() && trimmed_end(s, p).skip(
            trimmed_end(s, p).len() - p.len(),
        ) == p),
    decreases s.len(),
{
    if p.len() > 0 && p.len() <= s.len() && s.skip(s.len() - p.len()) == p {
        let rest = s.take(s.len() - p.len());
        lemma_trimmed_end(rest, p);
        let k = choose|k: nat| rest == trimmed_end(rest, p) + copies(p, k);
        lemma_copies_push(p, k);
        assert(s =~= rest + p);
        assert(s =~= trimmed_end(s, p) + copies(p, k + 1));
    } else {
        assert(s =~= s + copies(p, 0));
    }
}

proof fn lemma_copies_push(p: Seq<char>, k: nat)
    ensures
        copies(p, k + 1) == copies(p, k) + p,
    decreases k,
{
    if k == 0 {
        assert(copies(p, 0) == Seq::<char>::empty());
        assert(copies(p, 1) == p + copies(p, 0));
        assert(copies(p, 1) =~= p);
        assert(copies(p, 0) + p =~= p);
    } else {
        lemma_copies_push(p, (k - 1) as nat);
        assert(copies(p, k + 1) =~= p + copies(p, k));
        assert(p + (copies(p, (k - 1) as nat) + p) =~= (p + copies(p, (k - 1) as nat)) + p);
    }
}

/// Stripping the suffix `suffix` from `s` gives `r` exactly when `s` is `r` followed by
/// `suffix`.
pub proof fn lemma_without_suffix(s: Seq<char>, suffix: Seq<char>, r: Seq<char>)
    ensures
        without_suffix(s, suffix) == Some(r) <==> s == r + suffix,
{
    if s == r + suffix {
        assert(s.skip(s.len() - suffix.len()) =~= suffix);
        assert(s.take(s.len() - suffix.len()) =~= r);
    }
    if without_suffix(s, suffix) == Some(r) {
        assert(s =~= r + suffix);
    }
}

/// What follows the last `c` in `s` holds no `c`, and `s` is it preceded by nothing or by
/// text that ends with `c`.
pub proof fn lemma_after_last(s: Seq<char>, c: char)
    ensures
        !after_last(s, c).contains(c),
        after_last(s, c).len() <= s.len(),
        s.skip(s.len() - after_last(s, c).len()) == after_last(s, c),
        after_last(s, c).len() < s.len() ==> s[s.len() - after_last(s, c).len() - 1] == c,
    decreases s.len(),
{
    if s.len() > 0 && s.last() != c {
        let t = s.drop_last();
        lemma_after_last(t, c);
        let r = after_last(s, c);
        assert(r == after_last(t, c).push(s.last()));
        assert(s.skip(s.len() - r.len()) =~= t.skip(t.len() - after_last(t, c).len()).push(s.last()));
        if r.contains(c) {
            let i = choose|i: int| 0 <= i < r.len() && r[i] == c;
            if i < r.len() - 1 {
                assert(after_last(t, c)[i] == c);
            }
        }
        if r.len() < s.len() {
            assert(s[s.len() - r.len() - 1] == t[t.len() - after_last(t, c).len() - 1]);
        }
    } else if s.len() > 0 {
        assert(s.skip(s.len() as int) =~= seq![]);
    } else {
        assert(s.skip(0) =~= s);
    }
}

} // verus!
