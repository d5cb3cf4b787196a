//! The values of an enum.
use crate::ast::comments::{Comments, leading_comments, lemma_leading_comments};
use crate::ast::field::parsed_as;
use crate::ast::lexer::{
    Token,
    TokenView,
    get_number,
    get_word,
    is_punct_at,
    number_at,
    punct_at,
    tokens_view,
    word_at,
};
use crate::ast::message::ParseError;
use crate::text::{index_value, parse_index, string_of};
use vstd::prelude::*;

verus! {

/// A value of an enum.
#[derive(Debug)]
pub struct PEnumField {
    pub name: String,
    pub index: usize,
    pub comments: Comments,
}

/// What an enum value is.
pub struct PEnumFieldView {
    pub name: Seq<char>,
    pub index: usize,
    pub comments: Seq<Seq<char>>,
}

impl View for PEnumField {
    type V = PEnumFieldView;

    open spec fn view(&self) -> PEnumFieldView {
        PEnumFieldView { name: self.name@, index: self.index, comments: self.comments@ }
    }
}

/// An enum value at position `p`, and the position after it: `comment* name "=" index ";"`.
pub open spec fn enum_field_spec(ts: Seq<TokenView>, p: int) -> Option<(PEnumFieldView, int)> {
    let (cs, q) = leading_comments(ts, p);
    match word_at(ts, q) {
        Some(name) => {
            if punct_at(ts, q + 1, '=') && punct_at(ts, q + 3, ';') {
                match number_at(ts, q + 2) {
                    Some(d) => match index_value(d) {
                        Some(index) => Some((PEnumFieldView { name, index, comments: cs }, q + 4)),
                        None => None,
                    },
                    None => None,
                }
            } else {
                None
            }
        },
        None => None,
    }
}

pub proof fn lemma_enum_field_progress(ts: Seq<TokenView>, p: int)
    requires
        0 <= p <= ts.len(),
    ensures
        enum_field_spec(ts, p) matches Some((_, q)) ==> p < q <= ts.len(),
{
    lemma_leading_comments(ts, p);
}

impl PEnumField {
    /// The enum value at position `pos`, with the position after it.
    pub fn parse(tokens: &Vec<Token>, pos: usize) -> (r: Result<(PEnumField, usize), ParseError>)
        requires
            pos <= tokens.len(),
        ensures
            parsed_as(r, enum_field_spec(tokens_view(tokens@), pos as int)),
    {
        let (comments, q) = Comments::parse(tokens, pos);
        proof {
            lemma_leading_comments(tokens_view(tokens@), pos as int);
        }
        let name = match get_word(tokens, q) {
            Some(w) => string_of(w),
            None => {
                return Err(ParseError::Syntax);
            },
        };
        if !is_punct_at(tokens, q + 1, '=') {
            return Err(ParseError::Syntax);
        }
        let index = match get_number(tokens, q + 2) {
            Some(d) => match parse_index(d) {
                Some(i) => i,
                None => {
                    return Err(ParseError::Syntax);
                },
            },
            None => {
                return Err(ParseError::Syntax);
            },
        };
        if !is_punct_at(tokens, q + 3, ';') {
            return Err(ParseError::Syntax);
        }
        Ok((PEnumField { index, name, comments }, q + 4))
    }
}

} // verus!
