//! Properties of comment handling: which text of a comment is kept, which comments attach
//! to an element, and how they are written into Python.
use crate::ast::comments::{comment_text, first_space, leading_comments};
use crate::ast::compile_python::py_comments;
use crate::ast::go_laws::{holds_text, lemma_holds_text_end, lemma_holds_text_extend};
use crate::ast::lexer::TokenView;
use vstd::prelude::*;

verus! {

proof fn lemma_first_space(raw: Seq<char>, k: int)
    requires
        0 <= k,
    ensures
        match first_space(raw, k) {
            Some(i) => k <= i < raw.len() && raw[i] == ' ' && forall|j: int| k <= j < i ==> raw[j] != ' ',
            None => forall|j: int| k <= j < raw.len() ==> raw[j] != ' ',
        },
    decreases raw.len() - k,
{
    if k < raw.len() && raw[k] != ' ' {
        lemma_first_space(raw, k + 1);
    }
}

/// The text kept of a line comment is what follows its first space, when it has one, and
/// the whole comment otherwise.
pub proof fn lemma_comment_text(raw: Seq<char>)
    ensures
        forall|i: int|
            0 <= i < raw.len() && raw[i] == ' ' && (forall|j: int| 0 <= j < i ==> raw[j] != ' ')
                ==> #[trigger] comment_text(raw) == raw.skip(i + 1) && raw[i] == ' ',
        (forall|j: int| 0 <= j < raw.len() ==> raw[j] != ' ') ==> comment_text(raw) == raw,
{
    lemma_first_space(raw, 0);
    assert forall|i: int|
        0 <= i < raw.len() && raw[i] == ' ' && (forall|j: int| 0 <= j < i ==> raw[j] != ' ')
            implies #[trigger] comment_text(raw) == raw.skip(i + 1) && raw[i] == ' ' by {
        match first_space(raw, 0) {
            Some(k) => {
                if k < i {
                    assert(raw[k] != ' ');
                }
                if i < k {
                    assert(raw[i] != ' ');
                }
            },
            None => {
                assert(raw[i] != ' ');
            },
        }
    }
}

/// Whether the token `t` is a comment whose kept text is `c`.
pub open spec fn comment_with_text(t: TokenView, c: Seq<char>) -> bool {
    t matches TokenView::Comment(raw) && c == comment_text(raw)
}

/// The comments attached at position `p` are the comment tokens that follow one another
/// from `p`, each by its kept text, in order; they end at the first token from `p` on
/// that is no comment, or at the end of the tokens.
pub proof fn lemma_leading_comments(ts: Seq<TokenView>, p: int)
    requires
        0 <= p <= ts.len(),
    ensures
        ({
            let (cs, q) = leading_comments(ts, p);
            &&& p <= q <= ts.len()
            &&& cs.len() == q - p
            &&& forall|i: int| 0 <= i < cs.len() ==> comment_with_text(ts[p + i], #[trigger] cs[i])
            &&& q < ts.len() ==> !(ts[q] is Comment)
        }),
    decreases ts.len() - p,
{
    if p < ts.len() && ts[p] is Comment {
        lemma_leading_comments(ts, p + 1);
        let (rest, q) = leading_comments(ts, p + 1);
        let (cs, q2) = leading_comments(ts, p);
        if let TokenView::Comment(raw) = ts[p] {
            assert(cs == seq![comment_text(raw)] + rest);
            assert(cs[0] == comment_text(raw));
        }
        assert(q2 == q);
        assert forall|i: int| 0 <= i < cs.len() implies comment_with_text(ts[p + i], #[trigger] cs[i]) by {
            if i > 0 {
                assert(cs[i] == rest[i - 1]);
                assert(p + i == (p + 1) + (i - 1));
            }
        }
    } else {
        assert(leading_comments(ts, p) == (Seq::<Seq<char>>::empty(), p));
    }
}

/// The Python docstring of comments holds, for each comment in order, the comment on an
/// indented line.
pub proof fn lemma_py_comment_lines(cs: Seq<Seq<char>>)
    ensures
        forall|i: int| 0 <= i < cs.len() ==> holds_text(py_comments(cs), "    "@ + #[trigger] cs[i] + "\n"@),
        cs.len() == 0 ==> py_comments(cs).len() == 0,
{
    if cs.len() > 0 {
        lemma_comment_lines(cs, cs.len() as int);
        let body = crate::ast::compile_python::py_comment_lines(cs, cs.len() as int);
        assert forall|i: int| 0 <= i < cs.len() implies holds_text(py_comments(cs), "    "@ + #[trigger] cs[i] + "\n"@) by {
            lemma_holds_text_after_local("    \"\"\"\n"@, body, "    "@ + cs[i] + "\n"@);
            lemma_holds_text_extend("    \"\"\"\n"@ + body, "    \"\"\"\n\n"@, "    "@ + cs[i] + "\n"@);
        }
    }
}

proof fn lemma_holds_text_after_local(x: Seq<char>, y: Seq<char>, p: Seq<char>)
    requires
        holds_text(y, p),
    ensures
        holds_text(x + y, p),
{
    crate::ast::go_laws::lemma_holds_text_after(x, y, p);
}

proof fn lemma_comment_lines(cs: Seq<Seq<char>>, n: int)
    requires
        0 <= n <= cs.len(),
    ensures
        forall|i: int|
            0 <= i < n ==> holds_text(
                crate::ast::compile_python::py_comment_lines(cs, n),
                "    "@ + #[trigger] cs[i] + "\n"@,
            ),
    decreases n,
{
    if n > 0 {
        lemma_comment_lines(cs, n - 1);
        let prev = crate::ast::compile_python::py_comment_lines(cs, n - 1);
        let line = "    "@ + cs[n - 1] + "\n"@;
        vstd::seq_lib::lemma_concat_associative(prev, "    "@ + cs[n - 1], "\n"@);
        vstd::seq_lib::lemma_concat_associative(prev, "    "@, cs[n - 1]);
        lemma_holds_text_end(prev, line);
        assert forall|i: int|
            0 <= i < n implies holds_text(
                crate::ast::compile_python::py_comment_lines(cs, n),
                "    "@ + #[trigger] cs[i] + "\n"@,
            ) by {
            if i < n - 1 {
                lemma_holds_text_extend(prev, line, "    "@ + cs[i] + "\n"@);
            }
        }
    }
}

} // verus!
