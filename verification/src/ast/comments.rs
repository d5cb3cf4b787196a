//! The line comments attached to a schema element.
use crate::ast::lexer::{Token, TokenView, tokens_view};
use crate::text::string_of_suffix;
use vstd::prelude::*;

verus! {

/// The line comments attached to a schema element, in order.
#[derive(Debug)]
pub struct Comments {
    pub comments: Vec<String>,
}

impl View for Comments {
    type V = Seq<Seq<char>>;

    open spec fn view(&self) -> Seq<Seq<char>> {
        self.comments@.map_values(|c: String| c@)
    }
}

/// The position of the first space in `raw` at or after `k`.
pub open spec fn first_space(raw: Seq<char>, k: int) -> Option<int>
    decreases raw.len() - k,
{
    if k < 0 || k >= raw.len() {
        None
    } else if raw[k] == ' ' {
        Some(k)
    } else {
        first_space(raw, k + 1)
    }
}

/// The text kept of a line comment: what follows its first space, or the whole comment
/// (`//` included) when it has no space.
pub open spec fn comment_text(raw: Seq<char>) -> Seq<char> {
    match first_space(raw, 0) {
        Some(k) => raw.skip(k + 1),
        None => raw,
    }
}

/// The texts of the comments that follow one another from position `p`, and the position
/// after them.
pub open spec fn leading_comments(ts: Seq<TokenView>, p: int) -> (Seq<Seq<char>>, int)
    decreases ts.len() - p,
{
    if 0 <= p < ts.len() {
        match ts[p] {
            TokenView::Comment(raw) => {
                let rest = leading_comments(ts, p + 1);
                (seq![comment_text(raw)] + rest.0, rest.1)
            },
            _ => (seq![], p),
        }
    } else {
        (seq![], p)
    }
}

pub proof fn lemma_leading_comments(ts: Seq<TokenView>, p: int)
    requires
        0 <= p <= ts.len(),
    ensures
        p <= leading_comments(ts, p).1 <= ts.len(),
        leading_comments(ts, p).1 < ts.len() ==> !(ts[leading_comments(ts, p).1] is Comment),
    decreases ts.len() - p,
{
    if p < ts.len() && ts[p] is Comment {
        lemma_leading_comments(ts, p + 1);
    }
}

/// The text kept of the line comment `raw`.
pub fn comment_string(raw: &Vec<char>) -> (r: String)
    ensures
        r@ == comment_text(raw@),
{
    let mut k: usize = 0;
    while k < raw.len()
        invariant
            k <= raw.len(),
            first_space(raw@, 0) == first_space(raw@, k as int),
        decreases raw.len() - k,
    {
        if raw[k] == ' ' {
            return string_of_suffix(raw, k + 1);
        }
        k = k + 1;
    }
    string_of_suffix(raw, 0)
}

impl Comments {
    /// Appends the comments of `other` after these.
    pub fn extend(&mut self, other: &Comments)
        ensures
            final(self)@ == old(self)@ + other@,
    {
        let ghost start = self@;
        let mut k: usize = 0;
        while k < other.comments.len()
            invariant
                k <= other.comments.len(),
                self@ == start + other@.take(k as int),
            decreases other.comments.len() - k,
        {
            let ghost before = self@;
            self.comments.push(other.comments[k].clone());
            assert(self@ =~= before.push(other@[k as int]));
            k = k + 1;
            assert(start + other@.take(k as int) =~= before.push(other@[k - 1]));
        }
        assert(other@.take(k as int) =~= other@);
    }

    /// Collects the comments that follow one another from position `pos`; returns them
    /// with the position after them. Where the tokens end after the comments, that position
    /// is the end of the tokens: the reader returns normally, and its callers then find no
    /// closing brace or no further declaration there.
    pub fn parse(tokens: &Vec<Token>, pos: usize) -> (r: (Comments, usize))
        ensures
            (r.0@, r.1 as int) == leading_comments(tokens_view(tokens@), pos as int),
            pos <= r.1,
            pos <= tokens.len() ==> r.1 <= tokens.len(),
            forall|i: int| pos <= i < r.1 ==> tokens_view(tokens@)[i] is Comment,
            r.1 < tokens.len() ==> !(tokens_view(tokens@)[r.1 as int] is Comment),
    {
        let ghost ts = tokens_view(tokens@);
        let mut comments: Vec<String> = Vec::new();
        let mut p = pos;
        while p < tokens.len() && matches!(tokens[p], Token::Comment(_))
            invariant
                ts == tokens_view(tokens@),
                pos <= p,
                pos <= tokens.len() ==> p <= tokens.len(),
                p > pos ==> p <= tokens.len(),
                forall|i: int| pos <= i < p ==> ts[i] is Comment,
                leading_comments(ts, pos as int) == (
                    comments@.map_values(|c: String| c@) + leading_comments(ts, p as int).0,
                    leading_comments(ts, p as int).1,
                ),
            decreases tokens.len() - p,
        {
            match &tokens[p] {
                Token::Comment(raw) => {
                    let ghost before = comments@.map_values(|c: String| c@);
                    let text = comment_string(raw);
                    comments.push(text);
                    assert(comments@.map_values(|c: String| c@) =~= before.push(
                        comment_text(raw@),
                    ));
                    assert(before + leading_comments(ts, p as int).0 =~= comments@.map_values(
                        |c: String| c@,
                    ) + leading_comments(ts, p + 1).0);
                    p = p + 1;
                },
                _ => {},
            }
        }
        assert(comments@.map_values(|c: String| c@) + leading_comments(ts, p as int).0
            =~= comments@.map_values(|c: String| c@));
        (Comments { comments }, p)
    }
}

} // verus!
