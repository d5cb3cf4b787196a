//! Properties of the case conversions: the Pascal-case form as words joined, and the round
//! trips between the snake-case and Pascal-case forms of ASCII identifiers.
use crate::util::{
    all_ascii,
    capitalized,
    pascal_case,
    pascal_prefix,
    ascii_lower,
    ascii_pascal_case,
    ascii_pascal_prefix,
    ascii_snake_case,
    ascii_snake_break,
    ascii_snake_prefix,
    ascii_upper,
    is_ascii,
    is_ascii_lower,
    is_ascii_upper,
    unicode_uppercase,
};
use vstd::prelude::*;

verus! {

/// Whether `s` is a snake-case identifier that Pascal case can carry back: ASCII without
/// uppercase letters, not starting with `_`, and each `_` standing between a lowercase
/// letter that does not start its word and a lowercase letter.
pub open spec fn snake_words(s: Seq<char>) -> bool {
    &&& all_ascii(s)
    &&& forall|i: int| 0 <= i < s.len() ==> !is_ascii_upper(#[trigger] s[i])
    &&& (s.len() > 0 ==> s[0] != '_')
    &&& forall|i: int|
        0 <= i < s.len() && #[trigger] s[i] == '_' ==> {
            &&& 2 <= i
            &&& i + 1 < s.len()
            &&& is_ascii_lower(s[i - 1])
            &&& s[i - 2] != '_'
            &&& is_ascii_lower(s[i + 1])
        }
}

proof fn lemma_pascal_prefix_grows(s: Seq<char>, k: int, m: int)
    requires
        0 <= k <= m <= s.len(),
    ensures
        ascii_pascal_prefix(s, k).len() <= ascii_pascal_prefix(s, m).len(),
        forall|j: int|
            0 <= j < ascii_pascal_prefix(s, k).len() ==> #[trigger] ascii_pascal_prefix(s, m)[j]
                == ascii_pascal_prefix(s, k)[j],
    decreases m - k,
{
    if k < m {
        lemma_pascal_prefix_grows(s, k, m - 1);
    }
}

proof fn lemma_pascal_prefix_ascii(s: Seq<char>, k: int)
    requires
        all_ascii(s),
        0 <= k <= s.len(),
    ensures
        all_ascii(ascii_pascal_prefix(s, k)),
    decreases k,
{
    if k > 0 {
        lemma_pascal_prefix_ascii(s, k - 1);
        assert(is_ascii(s[k - 1]));
        assert(is_ascii(ascii_upper(s[k - 1])));
    }
}

proof fn lemma_snake_of_pascal_prefix(s: Seq<char>, k: int)
    requires
        snake_words(s),
        0 <= k <= s.len(),
        k == 0 || s[k - 1] != '_',
    ensures
        ascii_snake_prefix(ascii_pascal_case(s), ascii_pascal_prefix(s, k).len() as int) == s.take(k),
    decreases k,
{
    let p = ascii_pascal_case(s);
    if k == 0 {
        assert(s.take(0) =~= seq![]);
    } else if k == 1 || s[k - 2] != '_' {
        lemma_snake_of_pascal_prefix(s, k - 1);
        lemma_pascal_prefix_grows(s, k, s.len() as int);
        let pre = ascii_pascal_prefix(s, k - 1);
        let j = pre.len() as int;
        let c = s[k - 1];
        assert(!is_ascii_upper(c));
        assert(is_ascii(c));
        if k == 1 {
            assert(ascii_pascal_prefix(s, k) == pre.push(ascii_upper(c)));
            assert(p[j] == ascii_upper(c));
            assert(j == 0);
            assert(ascii_lower(ascii_upper(c)) == c);
        } else {
            assert(ascii_pascal_prefix(s, k) == pre.push(c));
            assert(p[j] == c);
            assert(ascii_lower(c) == c);
        }
        assert(s.take(k) =~= s.take(k - 1).push(c));
        assert(ascii_snake_prefix(p, j + 1) =~= ascii_snake_prefix(p, j) + seq![c]);
    } else {
        // `s[k - 2]` is an underscore between two lowercase letters.
        assert(s[k - 2] == '_');
        let u = k - 2;
        assert(2 <= u && is_ascii_lower(s[u - 1]) && s[u - 2] != '_' && is_ascii_lower(s[u + 1]));
        lemma_snake_of_pascal_prefix(s, k - 2);
        lemma_pascal_prefix_grows(s, k, s.len() as int);
        lemma_pascal_prefix_grows(s, k - 2, k);
        let pre = ascii_pascal_prefix(s, k - 2);
        let j = pre.len() as int;
        let d = s[k - 3];
        assert(ascii_pascal_prefix(s, k - 2) == ascii_pascal_prefix(s, k - 3).push(d));
        assert(ascii_pascal_prefix(s, k - 1) == pre);
        let c = s[k - 1];
        assert(ascii_pascal_prefix(s, k) == pre.push(ascii_upper(c)));
        assert(p[j] == ascii_upper(c));
        assert(p[j - 1] == d);
        assert(is_ascii_upper(ascii_upper(c)));
        assert(ascii_lower(ascii_upper(c)) == c);
        assert(s.take(k) =~= s.take(k - 2) + seq!['_', c]);
        assert(ascii_snake_prefix(p, j + 1) =~= ascii_snake_prefix(p, j) + seq!['_', c]);
    }
}

/// Writing a snake-case identifier in Pascal case and back gives it again, for the
/// identifiers of `snake_words` (such as `user_id`, through `UserId`); the Pascal form is
/// ASCII, as both conversions need for their ASCII forms.
pub proof fn lemma_snake_pascal_round_trip(s: Seq<char>)
    requires
        snake_words(s),
    ensures
        all_ascii(ascii_pascal_case(s)),
        ascii_snake_case(ascii_pascal_case(s)) == s,
{
    lemma_pascal_prefix_ascii(s, s.len() as int);
    if s.len() > 0 {
        let last = s.len() - 1;
        if s[last] == '_' {
            assert(last + 1 < s.len());
        }
    }
    lemma_snake_of_pascal_prefix(s, s.len() as int);
    assert(s.take(s.len() as int) =~= s);
}

/// Whether `x` is a Pascal-case identifier that snake case can carry back: ASCII without
/// `_`, not starting with a lowercase letter, and with a lowercase letter before each
/// uppercase letter but the first character.
pub open spec fn pascal_words(x: Seq<char>) -> bool {
    &&& all_ascii(x)
    &&& forall|i: int| 0 <= i < x.len() ==> #[trigger] x[i] != '_'
    &&& (x.len() > 0 ==> !is_ascii_lower(x[0]))
    &&& forall|i: int| 0 < i < x.len() && is_ascii_upper(#[trigger] x[i]) ==> is_ascii_lower(x[i - 1])
}

proof fn lemma_snake_prefix_grows(x: Seq<char>, k: int, m: int)
    requires
        0 <= k <= m <= x.len(),
    ensures
        ascii_snake_prefix(x, k).len() + (m - k) <= ascii_snake_prefix(x, m).len(),
        forall|j: int|
            0 <= j < ascii_snake_prefix(x, k).len() ==> #[trigger] ascii_snake_prefix(x, m)[j]
                == ascii_snake_prefix(x, k)[j],
    decreases m - k,
{
    if k < m {
        lemma_snake_prefix_grows(x, k, m - 1);
    }
}

proof fn lemma_snake_prefix_ascii(x: Seq<char>, k: int)
    requires
        all_ascii(x),
        0 <= k <= x.len(),
    ensures
        all_ascii(ascii_snake_prefix(x, k)),
    decreases k,
{
    if k > 0 {
        lemma_snake_prefix_ascii(x, k - 1);
        assert(is_ascii(x[k - 1]));
        assert(is_ascii(ascii_lower(x[k - 1])));
        let pre = ascii_snake_prefix(x, k - 1);
        let all = ascii_snake_prefix(x, k);
        assert forall|i: int| 0 <= i < all.len() implies is_ascii(#[trigger] all[i]) by {
            if i < pre.len() {
                assert(all[i] == pre[i]);
            }
        }
    }
}

proof fn lemma_pascal_of_snake_prefix(x: Seq<char>, k: int)
    requires
        pascal_words(x),
        0 <= k <= x.len(),
    ensures
        ascii_pascal_prefix(ascii_snake_case(x), ascii_snake_prefix(x, k).len() as int) == x.take(k),
        k > 0 ==> ascii_snake_prefix(x, k).len() > 0 && ascii_snake_prefix(x, k)[ascii_snake_prefix(x, k).len() - 1]
            == ascii_lower(x[k - 1]),
    decreases k,
{
    let y = ascii_snake_case(x);
    if k == 0 {
        assert(x.take(0) =~= seq![]);
    } else {
        lemma_pascal_of_snake_prefix(x, k - 1);
        lemma_snake_prefix_grows(x, k, x.len() as int);
        lemma_snake_prefix_grows(x, k - 1, k);
        let pre = ascii_snake_prefix(x, k - 1);
        let j = pre.len() as int;
        let c = x[k - 1];
        assert(is_ascii(c));
        assert(c != '_');
        assert(x.take(k) =~= x.take(k - 1).push(c));
        if k == 1 {
            assert(!ascii_snake_break(x, 0));
            assert(ascii_snake_prefix(x, 1) =~= seq![ascii_lower(c)]);
            assert(y[0] == ascii_lower(c));
            assert(ascii_lower(c) != '_');
            assert(ascii_upper(ascii_lower(c)) == c);
            assert(ascii_pascal_prefix(y, 1) =~= seq![c]);
        } else if !is_ascii_upper(c) {
            assert(!ascii_snake_break(x, k - 1));
            assert(ascii_snake_prefix(x, k) == pre + seq![ascii_lower(c)]);
            assert(ascii_lower(c) == c);
            assert(y[j] == c);
            assert(x[k - 2] != '_');
            assert(y[j - 1] == ascii_lower(x[k - 2]));
            assert(ascii_lower(x[k - 2]) != '_');
            assert(ascii_pascal_prefix(y, j + 1) == ascii_pascal_prefix(y, j).push(c));
        } else {
            assert(is_ascii_lower(x[k - 2]));
            assert(ascii_snake_break(x, k - 1));
            assert(ascii_snake_prefix(x, k) == pre + seq!['_', ascii_lower(c)]);
            assert(y[j] == '_');
            assert(y[j + 1] == ascii_lower(c));
            assert(ascii_lower(c) != '_');
            assert(ascii_upper(ascii_lower(c)) == c);
            assert(ascii_pascal_prefix(y, j + 1) == ascii_pascal_prefix(y, j));
            assert(ascii_pascal_prefix(y, j + 2) == ascii_pascal_prefix(y, j + 1).push(c));
        }
    }
}

/// Writing a Pascal-case identifier in snake case and back gives it again, for the
/// identifiers of `pascal_words` (such as `K8sStack`, through `k8s_stack`); the snake
/// form is ASCII, as both conversions need for their ASCII forms.
pub proof fn lemma_pascal_snake_round_trip(x: Seq<char>)
    requires
        pascal_words(x),
    ensures
        all_ascii(ascii_snake_case(x)),
        ascii_pascal_case(ascii_snake_case(x)) == x,
{
    lemma_snake_prefix_ascii(x, x.len() as int);
    lemma_pascal_of_snake_prefix(x, x.len() as int);
    assert(x.take(x.len() as int) =~= x);
}

/// The `_`-separated pieces of `s` from left to right, empty ones included, as
/// `str::split` with `'_'` yields them.
pub open spec fn underscore_split(s: Seq<char>) -> Seq<Seq<char>>
    decreases s.len(),
{
    if s.len() == 0 {
        seq![seq![]]
    } else {
        let t = underscore_split(s.drop_last());
        if s.last() == '_' {
            t.push(seq![])
        } else {
            t.update(t.len() - 1, t.last().push(s.last()))
        }
    }
}

/// The non-empty words of `ws`, each with its first character uppercased, joined.
pub open spec fn join_capitalized(ws: Seq<Seq<char>>) -> Seq<char>
    decreases ws.len(),
{
    if ws.len() == 0 {
        seq![]
    } else if ws.last().len() > 0 {
        join_capitalized(ws.drop_last()) + capitalized(ws.last())
    } else {
        join_capitalized(ws.drop_last())
    }
}

proof fn lemma_split_last(s: Seq<char>)
    ensures
        underscore_split(s).len() >= 1,
        (underscore_split(s).last().len() == 0) <==> (s.len() == 0 || s.last() == '_'),
    decreases s.len(),
{
    if s.len() > 0 {
        lemma_split_last(s.drop_last());
    }
}

proof fn lemma_pascal_prefix_joined(s: Seq<char>, n: int)
    requires
        0 <= n <= s.len(),
    ensures
        pascal_prefix(s, n) == join_capitalized(underscore_split(s.take(n))),
    decreases n,
{
    if n == 0 {
        assert(s.take(0) =~= seq![]);
        let one: Seq<Seq<char>> = seq![seq![]];
        let none: Seq<Seq<char>> = seq![];
        assert(one.drop_last() =~= none);
        assert(underscore_split(s.take(0)) == one);
        assert(join_capitalized(none).len() == 0);
        assert(join_capitalized(one) == join_capitalized(none));
    } else {
        lemma_pascal_prefix_joined(s, n - 1);
        let u = s.take(n);
        assert(u.drop_last() =~= s.take(n - 1));
        assert(u.last() == s[n - 1]);
        let t = underscore_split(s.take(n - 1));
        lemma_split_last(s.take(n - 1));
        let c = s[n - 1];
        if c == '_' {
            let t2 = t.push(seq![]);
            assert(underscore_split(u) == t2);
            assert(t2.drop_last() =~= t);
            assert(join_capitalized(t2) == join_capitalized(t));
        } else {
            let last = t.last();
            let t2 = t.update(t.len() - 1, last.push(c));
            assert(underscore_split(u) == t2);
            assert(t2.drop_last() =~= t.drop_last());
            assert(t2.last() == last.push(c));
            if n - 1 == 0 || s[n - 2] == '_' {
                assert(last.len() == 0);
                assert(last.push(c) =~= seq![c]);
                assert(capitalized(seq![c]) =~= unicode_uppercase(c));
                assert(join_capitalized(t) == join_capitalized(t.drop_last()));
                assert(join_capitalized(t2) == join_capitalized(t.drop_last()) + unicode_uppercase(c));
            } else {
                assert(s.take(n - 1).last() == s[n - 2]);
                assert(last.len() > 0);
                assert(capitalized(last.push(c)) =~= capitalized(last) + seq![c]);
                assert(join_capitalized(t) == join_capitalized(t.drop_last()) + capitalized(last));
                assert(join_capitalized(t2) =~= join_capitalized(t) + seq![c]);
            }
        }
    }
}

/// The Pascal-case form of `s` is its non-empty `_`-separated words, each with its first
/// character uppercased, joined together.
pub proof fn lemma_pascal_case_joins_words(s: Seq<char>)
    ensures
        pascal_case(s) == join_capitalized(underscore_split(s)),
{
    lemma_pascal_prefix_joined(s, s.len() as int);
    assert(s.take(s.len() as int) =~= s);
}

} // verus!
