//! Character and string helpers shared by the parser and the code generators.
use vstd::prelude::*;
use vstd::std_specs::iter::IteratorSpec;

verus! {

broadcast use vstd::string::group_string_axioms;

/// The characters of `s`, in order.
pub fn chars_of(s: &str) -> (r: Vec<char>)
    ensures
        r@ == s@,
{
    let mut r: Vec<char> = Vec::new();
    let mut it = s.chars();
    loop
        invariant
            r@ + it.remaining() == s@,
            it.decrease() is Some,
        decreases it.decrease()->0,
    {
        match it.next() {
            Some(c) => {
                r.push(c);
                assert(r@ + it.remaining() =~= s@);
            },
            None => {
                assert(r@ =~= s@);
                return r;
            },
        }
    }
}

/// Calls `String::push`, which appends `c` to `s`. Claimed: `s` grows by exactly `c`.
#[verifier::external_body]
pub(crate) fn push_char(s: &mut String, c: char)
    ensures
        final(s)@ == old(s)@.push(c),
{
    s.push(c);
}

/// Appends the characters of `v` to `s`.
pub fn push_chars(s: &mut String, v: &Vec<char>)
    ensures
        final(s)@ == old(s)@ + v@,
{
    let ghost start = s@;
    let mut i: usize = 0;
    while i < v.len()
        invariant
            i <= v.len(),
            s@ == start + v@.take(i as int),
        decreases v.len() - i,
    {
        push_char(s, v[i]);
        i = i + 1;
        assert(s@ =~= start + v@.take(i as int));
    }
    assert(v@.take(i as int) =~= v@);
}

/// A string holding the characters of `v`.
pub fn string_of(v: &Vec<char>) -> (r: String)
    ensures
        r@ == v@,
{
    let mut s = String::new();
    push_chars(&mut s, v);
    assert(s@ =~= v@);
    s
}

/// The characters of `v` from position `start` on, as a string.
pub fn string_of_suffix(v: &Vec<char>, start: usize) -> (r: String)
    requires
        start <= v.len(),
    ensures
        r@ == v@.skip(start as int),
{
    let mut s = String::new();
    let mut i: usize = start;
    while i < v.len()
        invariant
            start <= i <= v.len(),
            s@ == v@.subrange(start as int, i as int),
        decreases v.len() - i,
    {
        push_char(&mut s, v[i]);
        i = i + 1;
        assert(s@ =~= v@.subrange(start as int, i as int));
    }
    assert(v@.subrange(start as int, i as int) =~= v@.skip(start as int));
    s
}

/// Whether the characters of `v` are exactly those of `lit`.
pub fn chars_eq_str(v: &Vec<char>, lit: &str) -> (r: bool)
    ensures
        r == (v@ == lit@),
{
    let n = lit.unicode_len();
    if v.len() != n {
        return false;
    }
    let mut i: usize = 0;
    while i < n
        invariant
            n == v.len(),
            n == lit@.len(),
            i <= n,
            forall|j: int| 0 <= j < i ==> v@[j] == lit@[j],
        decreases n - i,
    {
        if v[i] != lit.get_char(i) {
            return false;
        }
        i = i + 1;
    }
    assert(v@ =~= lit@);
    true
}

/// Whether two strings hold the same characters.
pub fn str_eq(a: &str, b: &str) -> (r: bool)
    ensures
        r == (a@ == b@),
{
    let va = chars_of(a);
    chars_eq_str(&va, b)
}

/// The decimal digit for `d` (below ten).
pub open spec fn digit_char(d: nat) -> char {
    if d == 0 {
        '0'
    } else if d == 1 {
        '1'
    } else if d == 2 {
        '2'
    } else if d == 3 {
        '3'
    } else if d == 4 {
        '4'
    } else if d == 5 {
        '5'
    } else if d == 6 {
        '6'
    } else if d == 7 {
        '7'
    } else if d == 8 {
        '8'
    } else {
        '9'
    }
}

/// The decimal notation of `n`, most significant digit first, without leading zeros.
pub open spec fn decimal(n: nat) -> Seq<char>
    decreases n,
{
    if n < 10 {
        seq![digit_char(n)]
    } else {
        decimal(n / 10).push(digit_char(n % 10))
    }
}

/// The decimal notation of an integer, with a leading `-` when it is negative.
pub open spec fn signed_decimal(n: int) -> Seq<char> {
    if n < 0 {
        seq!['-'] + decimal((-n) as nat)
    } else {
        decimal(n as nat)
    }
}

fn digit_of(d: u64) -> (c: char)
    requires
        d < 10,
    ensures
        c == digit_char(d as nat),
{
    if d == 0 {
        '0'
    } else if d == 1 {
        '1'
    } else if d == 2 {
        '2'
    } else if d == 3 {
        '3'
    } else if d == 4 {
        '4'
    } else if d == 5 {
        '5'
    } else if d == 6 {
        '6'
    } else if d == 7 {
        '7'
    } else if d == 8 {
        '8'
    } else {
        '9'
    }
}

fn decimal_chars(n: u64) -> (r: Vec<char>)
    ensures
        r@ == decimal(n as nat),
    decreases n,
{
    if n < 10 {
        let mut v: Vec<char> = Vec::new();
        v.push(digit_of(n));
        assert(v@ =~= decimal(n as nat));
        v
    } else {
        let mut v = decimal_chars(n / 10);
        v.push(digit_of(n % 10));
        v
    }
}

/// `n` written in decimal, as `format!("{}", n)` writes it.
pub fn usize_text(n: usize) -> (r: String)
    ensures
        r@ == decimal(n as nat),
{
    let v = decimal_chars(n as u64);
    string_of(&v)
}

/// `n` written in decimal with its sign, as `format!("{}", n)` writes it.
pub fn i32_text(n: i32) -> (r: String)
    ensures
        r@ == signed_decimal(n as int),
{
    if n < 0 {
        let m: u64 = (-(n as i64)) as u64;
        let v = decimal_chars(m);
        let mut s = String::from_str("-");
        push_chars(&mut s, &v);
        assert(s@ =~= signed_decimal(n as int)) by {
            reveal_strlit("-");
        }
        s
    } else {
        let v = decimal_chars(n as u64);
        string_of(&v)
    }
}

/// `b` written as `format!("{}", b)` writes it.
pub open spec fn bool_text_spec(b: bool) -> Seq<char> {
    if b {
        "true"@
    } else {
        "false"@
    }
}

/// `b` written as `format!("{}", b)` writes it.
pub fn bool_text(b: bool) -> (r: String)
    ensures
        r@ == bool_text_spec(b),
{
    if b {
        String::from_str("true")
    } else {
        String::from_str("false")
    }
}

/// The string `s` followed by `t`.
pub fn concat(s: &str, t: &str) -> (r: String)
    ensures
        r@ == s@ + t@,
{
    let mut r = String::from_str(s);
    r.append(t);
    r
}

/// Whether every character of `d` is a decimal digit.
pub open spec fn all_digits(d: Seq<char>) -> bool {
    forall|k: int| 0 <= k < d.len() ==> '0' <= #[trigger] d[k] && d[k] <= '9'
}

/// The value of the decimal digit `c`.
pub open spec fn digit_value(c: char) -> nat {
    (c as int - '0' as int) as nat
}

/// The value of the decimal numeral `d`.
pub open spec fn decimal_value(d: Seq<char>) -> nat
    decreases d.len(),
{
    if d.len() == 0 {
        0
    } else {
        decimal_value(d.drop_last()) * 10 + digit_value(d.last())
    }
}

/// The value of the numeral `d` as an index: `None` unless `d` is a non-empty run of
/// digits whose value fits in a `usize`.
pub open spec fn index_value(d: Seq<char>) -> Option<usize> {
    if d.len() > 0 && all_digits(d) && decimal_value(d) <= usize::MAX {
        Some(decimal_value(d) as usize)
    } else {
        None
    }
}

proof fn lemma_decimal_value_prefix(d: Seq<char>, k: int)
    requires
        0 <= k <= d.len(),
    ensures
        decimal_value(d.take(k)) <= decimal_value(d),
    decreases d.len() - k,
{
    if k < d.len() {
        lemma_decimal_value_prefix(d, k + 1);
        assert(d.take(k + 1).drop_last() =~= d.take(k));
    } else {
        assert(d.take(k) =~= d);
    }
}

/// The value of the numeral `d` as an index, as `str::parse::<usize>` would give it for a
/// run of digits.
pub fn parse_index(d: &Vec<char>) -> (r: Option<usize>)
    ensures
        r == index_value(d@),
{
    if d.len() == 0 {
        return None;
    }
    let mut value: usize = 0;
    let mut i: usize = 0;
    while i < d.len()
        invariant
            i <= d.len(),
            all_digits(d@.take(i as int)),
            value as nat == decimal_value(d@.take(i as int)),
        decreases d.len() - i,
    {
        let c = d[i];
        if !('0' <= c && c <= '9') {
            assert(!all_digits(d@));
            return None;
        }
        let digit: usize = ((c as u32) - ('0' as u32)) as usize;
        assert(d@.take(i + 1).drop_last() =~= d@.take(i as int));
        assert(all_digits(d@.take(i + 1)));
        if value > (usize::MAX - digit) / 10 {
            proof {
                assert(decimal_value(d@.take(i + 1)) > usize::MAX) by (nonlinear_arith)
                    requires
                        decimal_value(d@.take(i + 1)) == value * 10 + digit,
                        value > (usize::MAX - digit) / 10,
                        digit <= 9,
                ;
                lemma_decimal_value_prefix(d@, i + 1);
            }
            return None;
        }
        proof {
            assert(value * 10 + digit <= usize::MAX) by (nonlinear_arith)
                requires
                    value <= (usize::MAX - digit) / 10,
                    digit <= 9,
            ;
        }
        value = value * 10 + digit;
        i = i + 1;
    }
    assert(d@.take(i as int) =~= d@);
    Some(value)
}

/// `s` without the copies of `p` that repeatedly prefix it (`str::trim_start_matches`).
pub open spec fn trimmed_start(s: Seq<char>, p: Seq<char>) -> Seq<char>
    decreases s.len(),
{
    if p.len() > 0 && p.len() <= s.len() && s.take(p.len() as int) == p {
        trimmed_start(s.skip(p.len() as int), p)
    } else {
        s
    }
}

/// `s` without the copies of `p` that repeatedly suffix it (`str::trim_end_matches`).
pub open spec fn trimmed_end(s: Seq<char>, p: Seq<char>) -> Seq<char>
    decreases s.len(),
{
    if p.len() > 0 && p.len() <= s.len() && s.skip(s.len() - p.len()) == p {
        trimmed_end(s.take(s.len() - p.len()), p)
    } else {
        s
    }
}

/// `s` without the suffix `suffix`, if it ends with it (`str::strip_suffix`).
pub open spec fn without_suffix(s: Seq<char>, suffix: Seq<char>) -> Option<Seq<char>> {
    if suffix.len() <= s.len() && s.skip(s.len() - suffix.len()) == suffix {
        Some(s.take(s.len() - suffix.len()))
    } else {
        None
    }
}

/// What follows the last `c` in `s` (all of `s` when it holds no `c`): the last piece of
/// `s.split(c)`.
pub open spec fn after_last(s: Seq<char>, c: char) -> Seq<char>
    decreases s.len(),
{
    if s.len() == 0 {
        s
    } else if s.last() == c {
        seq![]
    } else {
        after_last(s.drop_last(), c).push(s.last())
    }
}

/// `s` with every `from` replaced by `to`.
pub open spec fn replaced(s: Seq<char>, from: char, to: char) -> Seq<char> {
    s.map_values(|c: char| if c == from { to } else { c })
}

/// Whether the characters of `s` from `start` on begin with those of `p`.
fn has_prefix_at(s: &Vec<char>, start: usize, p: &Vec<char>) -> (r: bool)
    requires
        start <= s.len(),
    ensures
        r == (p.len() <= s.len() - start && s@.subrange(start as int, start + p.len()) == p@),
{
    if p.len() > s.len() - start {
        return false;
    }
    let mut k: usize = 0;
    while k < p.len()
        invariant
            k <= p.len(),
            p.len() <= s.len() - start,
            forall|j: int| 0 <= j < k ==> s@[start + j] == p@[j],
        decreases p.len() - k,
    {
        if s[start + k] != p[k] {
            assert(s@.subrange(start as int, start + p.len())[k as int] != p@[k as int]);
            return false;
        }
        k = k + 1;
    }
    assert(s@.subrange(start as int, start + p.len()) =~= p@);
    true
}

/// The characters of `v` from `from` up to `to`, as a string.
pub fn string_of_range(v: &Vec<char>, from: usize, to: usize) -> (r: String)
    requires
        from <= to <= v.len(),
    ensures
        r@ == v@.subrange(from as int, to as int),
{
    let mut s = String::new();
    let mut i: usize = from;
    while i < to
        invariant
            from <= i <= to <= v.len(),
            s@ == v@.subrange(from as int, i as int),
        decreases to - i,
    {
        push_char(&mut s, v[i]);
        i = i + 1;
        assert(s@ =~= v@.subrange(from as int, i as int));
    }
    s
}

/// `s` without the copies of `pat` that repeatedly prefix it.
pub fn trim_start_matches(s: &str, pat: &str) -> (r: String)
    ensures
        r@ == trimmed_start(s@, pat@),
{
    let v = chars_of(s);
    let p = chars_of(pat);
    let mut start: usize = 0;
    if p.len() == 0 {
        return string_of(&v);
    }
    assert(s@.skip(0) =~= s@);
    while has_prefix_at(&v, start, &p)
        invariant
            v@ == s@,
            p@ == pat@,
            p.len() > 0,
            start <= v.len(),
            trimmed_start(s@, pat@) == trimmed_start(s@.skip(start as int), pat@),
        decreases v.len() - start,
    {
        assert(s@.skip(start as int).take(p.len() as int) =~= s@.subrange(
            start as int,
            start + p.len(),
        ));
        assert(s@.skip(start as int).skip(p.len() as int) =~= s@.skip(start + p.len()));
        start = start + p.len();
    }
    if p.len() <= v.len() - start {
        assert(s@.skip(start as int).take(p.len() as int) =~= s@.subrange(
            start as int,
            start + p.len(),
        ));
    }
    assert(s@.skip(start as int) =~= v@.subrange(start as int, v.len() as int));
    string_of_range(&v, start, v.len())
}

/// `s` without the copies of `pat` that repeatedly suffix it.
pub fn trim_end_matches(s: &str, pat: &str) -> (r: String)
    ensures
        r@ == trimmed_end(s@, pat@),
{
    let v = chars_of(s);
    let p = chars_of(pat);
    let mut end: usize = v.len();
    if p.len() == 0 {
        return string_of(&v);
    }
    assert(s@.take(v.len() as int) =~= s@);
    while p.len() <= end && has_prefix_at(&v, end - p.len(), &p)
        invariant
            v@ == s@,
            p@ == pat@,
            p.len() > 0,
            end <= v.len(),
            trimmed_end(s@, pat@) == trimmed_end(s@.take(end as int), pat@),
        decreases end,
    {
        assert(s@.take(end as int).skip(end - p.len()) =~= s@.subrange(end - p.len(), end as int));
        assert(s@.take(end as int).take(end - p.len()) =~= s@.take(end - p.len()));
        end = end - p.len();
    }
    assert(p.len() <= end ==> s@.take(end as int).skip(end - p.len()) =~= s@.subrange(
        end - p.len(),
        end as int,
    ));
    assert(s@.take(end as int) =~= v@.subrange(0, end as int));
    string_of_range(&v, 0, end)
}

/// `s` without the suffix `suffix`, if it ends with it.
pub fn strip_suffix(s: &str, suffix: &str) -> (r: Option<String>)
    ensures
        match r {
            Some(t) => without_suffix(s@, suffix@) == Some(t@),
            None => without_suffix(s@, suffix@) is None,
        },
{
    let v = chars_of(s);
    let p = chars_of(suffix);
    if p.len() > v.len() {
        return None;
    }
    let start = v.len() - p.len();
    if has_prefix_at(&v, start, &p) {
        assert(s@.skip(start as int) =~= s@.subrange(start as int, start + p.len()));
        assert(s@.take(start as int) =~= v@.subrange(0, start as int));
        Some(string_of_range(&v, 0, start))
    } else {
        assert(s@.skip(start as int) =~= s@.subrange(start as int, start + p.len()));
        None
    }
}

/// What follows the last `c` in `s`.
pub fn last_segment(s: &str, c: char) -> (r: String)
    ensures
        r@ == after_last(s@, c),
{
    let v = chars_of(s);
    let mut k: usize = v.len();
    assert(s@.take(k as int) =~= s@);
    assert(s@ + s@.skip(k as int) =~= s@);
    while k > 0 && v[k - 1] != c
        invariant
            v@ == s@,
            k <= v.len(),
            after_last(s@, c) == after_last(s@.take(k as int), c) + s@.skip(k as int),
        decreases k,
    {
        assert(s@.take(k as int).drop_last() =~= s@.take(k - 1));
        assert(s@.skip(k - 1) =~= seq![s@[k - 1]] + s@.skip(k as int));
        assert(after_last(s@.take(k as int), c) + s@.skip(k as int) =~= after_last(
            s@.take(k - 1),
            c,
        ) + s@.skip(k - 1));
        k = k - 1;
    }
    if k > 0 {
        assert(s@.take(k as int).last() == c);
    }
    assert(after_last(s@.take(k as int), c) =~= seq![]);
    assert(s@.skip(k as int) =~= v@.subrange(k as int, v.len() as int));
    string_of_range(&v, k, v.len())
}

/// `s` with every `from` replaced by `to`.
pub fn replace_char(s: &str, from: char, to: char) -> (r: String)
    ensures
        r@ == replaced(s@, from, to),
{
    let v = chars_of(s);
    let mut r = String::new();
    let mut i: usize = 0;
    while i < v.len()
        invariant
            v@ == s@,
            i <= v.len(),
            r@ == replaced(s@.take(i as int), from, to),
        decreases v.len() - i,
    {
        if v[i] == from {
            push_char(&mut r, to);
        } else {
            push_char(&mut r, v[i]);
        }
        i = i + 1;
        assert(r@ =~= replaced(s@.take(i as int), from, to));
    }
    assert(s@.take(i as int) =~= s@);
    r
}

} // verus!
