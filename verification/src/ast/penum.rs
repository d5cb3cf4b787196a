//! Enums.
use crate::ast::comments::{Comments, leading_comments, lemma_leading_comments};
use crate::ast::field::parsed_as;
use crate::ast::lexer::{
    Token,
    TokenView,
    get_word,
    is_keyword,
    is_punct_at,
    keyword_at,
    punct_at,
    tokens_view,
    word_at,
};
use crate::ast::message::ParseError;
use crate::ast::penum_field::{PEnumField, PEnumFieldView, enum_field_spec, lemma_enum_field_progress};
use crate::text::string_of;
use vstd::prelude::*;

verus! {

/// An enum of a schema.
#[derive(Debug)]
pub struct PEnum {
    pub name: String,
    pub fields: Vec<PEnumField>,
    pub comments: Comments,
    /// The position of this enum among the messages and enums of its schema.
    pub index: usize,
}

/// What an enum is.
pub struct PEnumView {
    pub name: Seq<char>,
    pub fields: Seq<PEnumFieldView>,
    pub comments: Seq<Seq<char>>,
    pub index: usize,
}

impl View for PEnum {
    type V = PEnumView;

    open spec fn view(&self) -> PEnumView {
        PEnumView {
            name: self.name@,
            fields: self.fields@.map_values(|f: PEnumField| f@),
            comments: self.comments@,
            index: self.index,
        }
    }
}

/// The body of an enum from position `r` up to and including its `}`: its values, the
/// comments that no value follows, and the position after the `}`.
pub open spec fn enum_body(ts: Seq<TokenView>, r: int) -> Option<
    (Seq<PEnumFieldView>, Seq<Seq<char>>, int),
>
    decreases ts.len() - r,
{
    if r < 0 || r > ts.len() {
        None
    } else {
        let (cs, q) = leading_comments(ts, r);
        if punct_at(ts, q, '}') {
            Some((seq![], cs, q + 1))
        } else {
            match enum_field_spec(ts, r) {
                Some((f, r2)) => {
                    proof {
                        lemma_enum_field_progress(ts, r);
                    }
                    match enum_body(ts, r2) {
                        Some((fs, ccs, e)) => Some((seq![f] + fs, ccs, e)),
                        None => None,
                    }
                },
                None => None,
            }
        }
    }
}

pub proof fn lemma_enum_body_progress(ts: Seq<TokenView>, r: int)
    requires
        0 <= r <= ts.len(),
    ensures
        enum_body(ts, r) matches Some((_, _, e)) ==> r < e <= ts.len(),
    decreases ts.len() - r,
{
    lemma_leading_comments(ts, r);
    lemma_enum_field_progress(ts, r);
    if let Some((_, r2)) = enum_field_spec(ts, r) {
        lemma_enum_body_progress(ts, r2);
    }
}

/// An enum at position `p` with the given position among the schema's messages and enums,
/// and the position after it: `comment* "enum" name "{" (value | comment)* "}"`. Its
/// comments are those before it and those in its body that no value follows.
pub open spec fn penum_spec(ts: Seq<TokenView>, p: int, index: usize) -> Option<(PEnumView, int)> {
    let (cs, q) = leading_comments(ts, p);
    if keyword_at(ts, q, "enum"@) && punct_at(ts, q + 2, '{') {
        match word_at(ts, q + 1) {
            Some(name) => match enum_body(ts, q + 3) {
                Some((fs, bcs, e)) => Some(
                    (PEnumView { name, fields: fs, comments: cs + bcs, index }, e),
                ),
                None => None,
            },
            None => None,
        }
    } else {
        None
    }
}

pub proof fn lemma_penum_progress(ts: Seq<TokenView>, p: int, index: usize)
    requires
        0 <= p <= ts.len(),
    ensures
        penum_spec(ts, p, index) matches Some((_, e)) ==> p < e <= ts.len(),
{
    lemma_leading_comments(ts, p);
    let q = leading_comments(ts, p).1;
    if q + 3 <= ts.len() {
        lemma_enum_body_progress(ts, q + 3);
    }
}

impl PEnum {
    /// The enum at position `pos`, given its position `index` among the schema's messages
    /// and enums, with the position after it.
    pub fn parse(tokens: &Vec<Token>, pos: usize, index: usize) -> (r: Result<
        (PEnum, usize),
        ParseError,
    >)
        requires
            pos <= tokens.len(),
        ensures
            parsed_as(r, penum_spec(tokens_view(tokens@), pos as int, index)),
    {
        let ghost ts = tokens_view(tokens@);
        let (comments, q) = Comments::parse(tokens, pos);
        proof {
            lemma_leading_comments(ts, pos as int);
        }
        if !is_keyword(tokens, q, "enum") {
            return Err(ParseError::Syntax);
        }
        let name = match get_word(tokens, q + 1) {
            Some(w) => string_of(w),
            None => {
                return Err(ParseError::Syntax);
            },
        };
        if !is_punct_at(tokens, q + 2, '{') {
            return Err(ParseError::Syntax);
        }
        let mut fields: Vec<PEnumField> = Vec::new();
        let mut r = q + 3;
        loop
            invariant
                ts == tokens_view(tokens@),
                q + 3 <= r <= tokens.len(),
                leading_comments(ts, pos as int) == (comments@, q as int),
                keyword_at(ts, q as int, "enum"@),
                word_at(ts, q + 1) == Some(name@),
                punct_at(ts, q + 2, '{'),
                enum_body(ts, q + 3) == match enum_body(ts, r as int) {
                    Some((fs, cs, e)) => Some(
                        (fields@.map_values(|f: PEnumField| f@) + fs, cs, e),
                    ),
                    None => None,
                },
            decreases tokens.len() - r,
        {
            let (trailing, t) = Comments::parse(tokens, r);
            proof {
                lemma_leading_comments(ts, r as int);
            }
            if is_punct_at(tokens, t, '}') {
                let mut all = comments;
                all.extend(&trailing);
                let e = PEnum { name, fields, comments: all, index };
                assert(fields@.map_values(|f: PEnumField| f@) + seq![] =~= fields@.map_values(
                    |f: PEnumField| f@,
                ));
                return Ok((e, t + 1));
            }
            let (f, r2) = match PEnumField::parse(tokens, r) {
                Ok(x) => x,
                Err(e) => {
                    return Err(e);
                },
            };
            proof {
                lemma_enum_field_progress(ts, r as int);
            }
            let ghost before = fields@.map_values(|f: PEnumField| f@);
            fields.push(f);
            assert(fields@.map_values(|f: PEnumField| f@) =~= before.push(f@));
            proof {
                match enum_body(ts, r2 as int) {
                    Some((fs, cs, e)) => {
                        assert(before + (seq![f@] + fs) =~= fields@.map_values(
                            |f: PEnumField| f@,
                        ) + fs);
                    },
                    None => {},
                }
            }
            r = r2;
        }
    }
}

} // verus!
