//! The fields of a message.
use crate::ast::comments::{Comments, comment_text, leading_comments, lemma_leading_comments};
use crate::ast::lexer::{
    Token,
    TokenView,
    get_number,
    get_word,
    is_keyword,
    is_punct_at,
    keyword_at,
    number_at,
    punct_at,
    str_at,
    tokens_view,
    word_at,
};
use crate::ast::message::ParseError;
use crate::ast::ptype::{
    PType,
    PTypeView,
    ptype_of_word,
    python_default,
    repeatable,
    repeated_of,
};
use crate::text::{index_value, parse_index, string_of};
use vstd::prelude::*;

verus! {

/// A field of a message: a plain field, or a `oneof` group whose alternatives are held in
/// `maybe_types`.
#[derive(Debug)]
pub struct Field {
    pub name: String,
    pub ptype: PType,
    pub comments: Comments,
    pub repeated: bool,
    pub index: usize,
    pub default: Option<String>,
    pub maybe_types: Option<Vec<Field>>,
}

/// What a field is.
pub struct FieldView {
    pub name: Seq<char>,
    pub ptype: PTypeView,
    pub comments: Seq<Seq<char>>,
    pub repeated: bool,
    pub index: usize,
    pub default: Option<Seq<char>>,
    pub maybe_types: Option<Seq<FieldView>>,
}

/// What a field is.
pub open spec fn field_view(f: Field) -> FieldView
    decreases f,
{
    FieldView {
        name: f.name@,
        ptype: f.ptype@,
        comments: f.comments@,
        repeated: f.repeated,
        index: f.index,
        default: match f.default {
            Some(d) => Some(d@),
            None => None,
        },
        maybe_types: match f.maybe_types {
            Some(v) => Some(
                Seq::new(
                    v@.len(),
                    |i: int|
                        if 0 <= i < v@.len() {
                            field_view(v@[i])
                        } else {
                            FieldView {
                                name: seq![],
                                ptype: PTypeView::Oneof,
                                comments: seq![],
                                repeated: false,
                                index: 0,
                                default: None,
                                maybe_types: None,
                            }
                        },
                ),
            ),
            None => None,
        },
    }
}

impl View for Field {
    type V = FieldView;

    open spec fn view(&self) -> FieldView {
        field_view(*self)
    }
}

/// What a sequence of fields is.
pub open spec fn fields_view(fs: Seq<Field>) -> Seq<FieldView> {
    fs.map_values(|f: Field| f@)
}

/// The text of the default value at position `p`: a word, a number or a string.
pub open spec fn value_at(ts: Seq<TokenView>, p: int) -> Option<Seq<char>> {
    match word_at(ts, p) {
        Some(w) => Some(w),
        None => match number_at(ts, p) {
            Some(n) => Some(n),
            None => str_at(ts, p),
        },
    }
}

/// The default clause `[default = value]` that may stand at position `r`: `None` when it
/// is malformed, otherwise its value (if it is there) and the position after it.
pub open spec fn default_clause(ts: Seq<TokenView>, r: int) -> Option<(Option<Seq<char>>, int)> {
    if punct_at(ts, r, '[') {
        if keyword_at(ts, r + 1, "default"@) && punct_at(ts, r + 2, '=') && punct_at(
            ts,
            r + 4,
            ']',
        ) {
            match value_at(ts, r + 3) {
                Some(v) => Some((Some(v), r + 5)),
                None => None,
            }
        } else {
            None
        }
    } else {
        Some((None, r))
    }
}

/// A plain field at position `p`, and the position after it:
/// `comment* ["optional"] ["repeated"] type name ["[" "default" "=" value "]"] "=" index ";"`.
/// A field marked `optional` without a default clause defaults to the Python default of
/// its type.
pub open spec fn regular_field_spec(ts: Seq<TokenView>, p: int) -> Option<(FieldView, int)> {
    let (cs, q) = leading_comments(ts, p);
    let optional = keyword_at(ts, q, "optional"@);
    let q1 = if optional {
        q + 1
    } else {
        q
    };
    let repeated = keyword_at(ts, q1, "repeated"@);
    let q2 = if repeated {
        q1 + 1
    } else {
        q1
    };
    match (word_at(ts, q2), word_at(ts, q2 + 1)) {
        (Some(tw), Some(name)) => {
            let base = ptype_of_word(tw);
            let ptype = if repeated {
                repeated_of(base)
            } else {
                base
            };
            match default_clause(ts, q2 + 2) {
                Some((explicit, r)) => {
                    if punct_at(ts, r, '=') && punct_at(ts, r + 2, ';') {
                        match number_at(ts, r + 1) {
                            Some(d) => match index_value(d) {
                                Some(index) => Some(
                                    (
                                        FieldView {
                                            name,
                                            ptype,
                                            comments: cs,
                                            repeated,
                                            index,
                                            default: match explicit {
                                                Some(v) => Some(v),
                                                None => if optional {
                                                    Some(python_default(ptype))
                                                } else {
                                                    None
                                                },
                                            },
                                            maybe_types: None,
                                        },
                                        r + 3,
                                    ),
                                ),
                                None => None,
                            },
                            None => None,
                        }
                    } else {
                        None
                    }
                },
                None => None,
            }
        },
        _ => None,
    }
}

pub proof fn lemma_regular_field_progress(ts: Seq<TokenView>, p: int)
    requires
        0 <= p <= ts.len(),
    ensures
        regular_field_spec(ts, p) matches Some((_, q)) ==> p < q <= ts.len(),
{
    lemma_leading_comments(ts, p);
}

/// The alternatives of a `oneof` group from position `r` up to and including its `}`.
pub open spec fn oneof_members(ts: Seq<TokenView>, r: int) -> Option<(Seq<FieldView>, int)>
    decreases ts.len() - r,
{
    if r < 0 || r >= ts.len() {
        None
    } else if punct_at(ts, r, '}') {
        Some((seq![], r + 1))
    } else {
        match regular_field_spec(ts, r) {
            Some((f, r2)) => {
                proof {
                    lemma_regular_field_progress(ts, r);
                }
                match oneof_members(ts, r2) {
                    Some((fs, e)) => Some((seq![f] + fs, e)),
                    None => None,
                }
            },
            None => None,
        }
    }
}

pub proof fn lemma_oneof_members_progress(ts: Seq<TokenView>, r: int)
    requires
        0 <= r <= ts.len(),
    ensures
        oneof_members(ts, r) matches Some((_, e)) ==> r < e <= ts.len(),
    decreases ts.len() - r,
{
    if 0 <= r < ts.len() && !punct_at(ts, r, '}') {
        lemma_regular_field_progress(ts, r);
        if let Some((_, r2)) = regular_field_spec(ts, r) {
            lemma_oneof_members_progress(ts, r2);
        }
    }
}

/// A `oneof` group at position `p`, and the position after it:
/// `comment* "oneof" name "{" field* "}"`.
pub open spec fn oneof_field_spec(ts: Seq<TokenView>, p: int) -> Option<(FieldView, int)> {
    let (cs, q) = leading_comments(ts, p);
    if keyword_at(ts, q, "oneof"@) && punct_at(ts, q + 2, '{') {
        match word_at(ts, q + 1) {
            Some(name) => match oneof_members(ts, q + 3) {
                Some((fs, e)) => Some(
                    (
                        FieldView {
                            name,
                            ptype: PTypeView::Oneof,
                            comments: cs,
                            repeated: false,
                            index: 0,
                            default: None,
                            maybe_types: Some(fs),
                        },
                        e,
                    ),
                ),
                None => None,
            },
            None => None,
        }
    } else {
        None
    }
}

/// A field at position `p` (a plain field or, failing that, a `oneof` group), and the
/// position after it.
pub open spec fn field_spec(ts: Seq<TokenView>, p: int) -> Option<(FieldView, int)> {
    match regular_field_spec(ts, p) {
        Some(r) => Some(r),
        None => oneof_field_spec(ts, p),
    }
}

pub proof fn lemma_field_progress(ts: Seq<TokenView>, p: int)
    requires
        0 <= p <= ts.len(),
    ensures
        field_spec(ts, p) matches Some((_, q)) ==> p < q <= ts.len(),
{
    lemma_regular_field_progress(ts, p);
    lemma_leading_comments(ts, p);
    let q = leading_comments(ts, p).1;
    if q + 3 <= ts.len() {
        lemma_oneof_members_progress(ts, q + 3);
    }
}

/// Whether a parse result is the one that `s` describes.
pub open spec fn parsed_as<T: View>(r: Result<(T, usize), ParseError>, s: Option<(T::V, int)>) -> bool {
    match r {
        Ok((v, q)) => s == Some((v@, q as int)),
        Err(e) => s is None && e is Syntax,
    }
}

impl Field {
    fn parse_regular(tokens: &Vec<Token>, pos: usize) -> (r: Result<(Field, usize), ParseError>)
        requires
            pos <= tokens.len(),
        ensures
            parsed_as(r, regular_field_spec(tokens_view(tokens@), pos as int)),
    {
        let ghost ts = tokens_view(tokens@);
        let (comments, q) = Comments::parse(tokens, pos);
        proof {
            lemma_leading_comments(ts, pos as int);
        }
        let optional = is_keyword(tokens, q, "optional");
        let q1 = if optional {
            q + 1
        } else {
            q
        };
        let repeated = is_keyword(tokens, q1, "repeated");
        let q2 = if repeated {
            q1 + 1
        } else {
            q1
        };
        let tw = match get_word(tokens, q2) {
            Some(w) => w,
            None => {
                return Err(ParseError::Syntax);
            },
        };
        let name = match get_word(tokens, q2 + 1) {
            Some(w) => w,
            None => {
                return Err(ParseError::Syntax);
            },
        };
        let base = PType::parse(string_of(tw).as_str());
        let ptype = if repeated {
            base.repeat()
        } else {
            base
        };
        let mut r = q2 + 2;
        let mut explicit: Option<String> = None;
        if is_punct_at(tokens, r, '[') {
            if !(is_keyword(tokens, r + 1, "default") && is_punct_at(tokens, r + 2, '=')) {
                return Err(ParseError::Syntax);
            }
            let v = if let Some(w) = get_word(tokens, r + 3) {
                w
            } else if let Some(n) = get_number(tokens, r + 3) {
                n
            } else if let Some(s) = crate::ast::lexer::get_str(tokens, r + 3) {
                s
            } else {
                return Err(ParseError::Syntax);
            };
            if !is_punct_at(tokens, r + 4, ']') {
                return Err(ParseError::Syntax);
            }
            explicit = Some(string_of(v));
            r = r + 5;
        }
        if !is_punct_at(tokens, r, '=') {
            return Err(ParseError::Syntax);
        }
        let index = match get_number(tokens, r + 1) {
            Some(d) => match parse_index(d) {
                Some(i) => i,
                None => {
                    return Err(ParseError::Syntax);
                },
            },
            None => {
                return Err(ParseError::Syntax);
            },
        };
        if !is_punct_at(tokens, r + 2, ';') {
            return Err(ParseError::Syntax);
        }
        let default = match explicit {
            Some(v) => Some(v),
            None => if optional {
                Some(ptype.default_python())
            } else {
                None
            },
        };
        let f = Field {
            index,
            repeated,
            default,
            comments,
            name: string_of(name),
            ptype,
            maybe_types: None,
        };
        Ok((f, r + 3))
    }

    fn parse_oneof(tokens: &Vec<Token>, pos: usize) -> (r: Result<(Field, usize), ParseError>)
        requires
            pos <= tokens.len(),
        ensures
            parsed_as(r, oneof_field_spec(tokens_view(tokens@), pos as int)),
    {
        let ghost ts = tokens_view(tokens@);
        let (comments, q) = Comments::parse(tokens, pos);
        proof {
            lemma_leading_comments(ts, pos as int);
        }
        if !is_keyword(tokens, q, "oneof") {
            return Err(ParseError::Syntax);
        }
        let name = match get_word(tokens, q + 1) {
            Some(w) => string_of(w),
            None => {
                return Err(ParseError::Syntax);
            },
        };
        if !is_punct_at(tokens, q + 2, '{') {
            return Err(ParseError::Syntax);
        }
        let mut maybe_types: Vec<Field> = Vec::new();
        let mut r = q + 3;
        loop
            invariant
                ts == tokens_view(tokens@),
                q + 3 <= r <= tokens.len(),
                leading_comments(ts, pos as int) == (comments@, q as int),
                keyword_at(ts, q as int, "oneof"@),
                word_at(ts, q + 1) == Some(name@),
                punct_at(ts, q + 2, '{'),
                oneof_members(ts, q + 3) == match oneof_members(ts, r as int) {
                    Some((fs, e)) => Some((fields_view(maybe_types@) + fs, e)),
                    None => None,
                },
            decreases tokens.len() - r,
        {
            if r >= tokens.len() {
                return Err(ParseError::Syntax);
            }
            if is_punct_at(tokens, r, '}') {
                assert(fields_view(maybe_types@) + seq![] =~= fields_view(maybe_types@));
                let f = Field {
                    index: 0,
                    repeated: false,
                    default: None,
                    comments,
                    name,
                    ptype: PType::Oneof,
                    maybe_types: Some(maybe_types),
                };
                proof {
                    assert(f@.maybe_types == Some(fields_view(maybe_types@)));
                }
                return Ok((f, r + 1));
            }
            let (f, r2) = match Field::parse_regular(tokens, r) {
                Ok(x) => x,
                Err(e) => {
                    return Err(e);
                },
            };
            proof {
                lemma_regular_field_progress(ts, r as int);
            }
            let ghost before = fields_view(maybe_types@);
            maybe_types.push(f);
            assert(fields_view(maybe_types@) =~= before.push(f@));
            proof {
                match oneof_members(ts, r2 as int) {
                    Some((fs, e)) => {
                        assert(before + (seq![f@] + fs) =~= fields_view(maybe_types@) + fs);
                    },
                    None => {},
                }
            }
            r = r2;
        }
    }

    /// The field at position `pos` (a plain field or, failing that, a `oneof` group),
    /// with the position after it.
    pub fn parse(tokens: &Vec<Token>, pos: usize) -> (r: Result<(Field, usize), ParseError>)
        requires
            pos <= tokens.len(),
        ensures
            parsed_as(r, field_spec(tokens_view(tokens@), pos as int)),
    {
        match Field::parse_regular(tokens, pos) {
            Ok(x) => Ok(x),
            Err(_) => Field::parse_oneof(tokens, pos),
        }
    }
}

} // verus!
