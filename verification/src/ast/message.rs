//! Messages, and the parser for a whole schema.
use crate::ast::comments::{Comments, leading_comments, lemma_leading_comments};
use crate::ast::field::{Field, FieldView, field_spec, fields_view, lemma_field_progress, parsed_as};
use crate::ast::lexer::{
    ProtoParser,
    Token,
    TokenView,
    get_str,
    get_word,
    is_keyword,
    is_punct_at,
    keyword_at,
    lex,
    punct_at,
    str_at,
    tokens_view,
    word_at,
};
use crate::ast::penum::{PEnum, PEnumView, lemma_penum_progress, penum_spec};
use crate::text::{chars_of, string_of};
use vstd::prelude::*;

verus! {

/// Why a schema could not be read.
#[derive(Debug)]
pub enum ParseError {
    /// No token starts at this character position.
    Lex(usize),
    /// The tokens do not follow the grammar.
    Syntax,
    /// The schema (in the named file) declares no message and no enum.
    Empty(String),
}

/// A message of a schema.
#[derive(Debug)]
pub struct Message {
    pub name: String,
    pub fields: Vec<Field>,
    pub comments: Comments,
    /// The position of this message among the messages and enums of its schema.
    pub index: usize,
}

/// What a message is.
pub struct MessageView {
    pub name: Seq<char>,
    pub fields: Seq<FieldView>,
    pub comments: Seq<Seq<char>>,
    pub index: usize,
}

impl View for Message {
    type V = MessageView;

    open spec fn view(&self) -> MessageView {
        MessageView {
            name: self.name@,
            fields: fields_view(self.fields@),
            comments: self.comments@,
            index: self.index,
        }
    }
}

/// A whole schema: its package, messages, enums and imports.
#[derive(Debug)]
pub struct Messages {
    pub package: String,
    pub messages: Vec<Message>,
    pub penums: Vec<PEnum>,
    /// The imported paths, each with its quotes.
    pub imports: Vec<String>,
}

/// What a schema is.
pub struct MessagesView {
    pub package: Seq<char>,
    pub messages: Seq<MessageView>,
    pub penums: Seq<PEnumView>,
    pub imports: Seq<Seq<char>>,
}

impl View for Messages {
    type V = MessagesView;

    open spec fn view(&self) -> MessagesView {
        MessagesView {
            package: self.package@,
            messages: self.messages@.map_values(|m: Message| m@),
            penums: self.penums@.map_values(|e: PEnum| e@),
            imports: self.imports@.map_values(|s: String| s@),
        }
    }
}

/// The body of a message from position `r` up to and including its `}`: its fields, the
/// comments that no field follows, and the position after the `}`.
pub open spec fn message_body(ts: Seq<TokenView>, r: int) -> Option<
    (Seq<FieldView>, Seq<Seq<char>>, int),
>
    decreases ts.len() - r,
{
    if r < 0 || r > ts.len() {
        None
    } else {
        let (cs, q) = leading_comments(ts, r);
        if punct_at(ts, q, '}') {
            Some((seq![], cs, q + 1))
        } else {
            match field_spec(ts, r) {
                Some((f, r2)) => {
                    proof {
                        lemma_field_progress(ts, r);
                    }
                    match message_body(ts, r2) {
                        Some((fs, ccs, e)) => Some((seq![f] + fs, ccs, e)),
                        None => None,
                    }
                },
                None => None,
            }
        }
    }
}

pub proof fn lemma_message_body_progress(ts: Seq<TokenView>, r: int)
    requires
        0 <= r <= ts.len(),
    ensures
        message_body(ts, r) matches Some((_, _, e)) ==> r < e <= ts.len(),
    decreases ts.len() - r,
{
    lemma_leading_comments(ts, r);
    lemma_field_progress(ts, r);
    if let Some((_, r2)) = field_spec(ts, r) {
        lemma_message_body_progress(ts, r2);
    }
}

/// A message at position `p` with the given position among the schema's messages and
/// enums, and the position after it: `comment* "message" name "{" (field | comment)* "}"`.
/// Its comments are those before it and those in its body that no field follows.
pub open spec fn message_spec(ts: Seq<TokenView>, p: int, index: usize) -> Option<
    (MessageView, int),
> {
    let (cs, q) = leading_comments(ts, p);
    if keyword_at(ts, q, "message"@) && punct_at(ts, q + 2, '{') {
        match word_at(ts, q + 1) {
            Some(name) => match message_body(ts, q + 3) {
                Some((fs, bcs, e)) => Some(
                    (MessageView { name, fields: fs, comments: cs + bcs, index }, e),
                ),
                None => None,
            },
            None => None,
        }
    } else {
        None
    }
}

pub proof fn lemma_message_progress(ts: Seq<TokenView>, p: int, index: usize)
    requires
        0 <= p <= ts.len(),
    ensures
        message_spec(ts, p, index) matches Some((_, e)) ==> p < e <= ts.len(),
{
    lemma_leading_comments(ts, p);
    let q = leading_comments(ts, p).1;
    if q + 3 <= ts.len() {
        lemma_message_body_progress(ts, q + 3);
    }
}

/// What the declarations of a schema from some position on amount to.
pub struct ItemsView {
    /// The last package declared, if any.
    pub package: Option<Seq<char>>,
    pub messages: Seq<MessageView>,
    pub penums: Seq<PEnumView>,
    pub imports: Seq<Seq<char>>,
}

/// No declarations.
pub open spec fn no_items() -> ItemsView {
    ItemsView { package: None, messages: seq![], penums: seq![], imports: seq![] }
}

/// The declarations `a` followed by the declarations `b`.
pub open spec fn join_items(a: ItemsView, b: ItemsView) -> ItemsView {
    ItemsView {
        package: if b.package is Some {
            b.package
        } else {
            a.package
        },
        messages: a.messages + b.messages,
        penums: a.penums + b.penums,
        imports: a.imports + b.imports,
    }
}

/// The declarations `a` followed by those of a successful parse.
pub open spec fn join_parsed(a: ItemsView, r: Option<ItemsView>) -> Option<ItemsView> {
    match r {
        Some(b) => Some(join_items(a, b)),
        None => None,
    }
}

/// The declarations of a schema from position `p` on, where `next` messages and enums
/// came before. A declaration is, after any comments (which are dropped unless a message
/// or enum follows them):
/// a message; an enum; `"package" name ";"`; `"import" string ";"`; or
/// `"syntax" "=" string ";"` (which is accepted and ignored).
pub open spec fn items_spec(ts: Seq<TokenView>, p: int, next: usize) -> Option<ItemsView>
    decreases ts.len() - p,
{
    if p < 0 || p > ts.len() {
        None
    } else {
        let (cs, q) = leading_comments(ts, p);
        if q >= ts.len() {
            Some(no_items())
        } else if keyword_at(ts, q, "message"@) {
            match message_spec(ts, p, next) {
                Some((m, e)) => {
                    proof {
                        lemma_message_progress(ts, p, next);
                    }
                    if next < usize::MAX {
                        join_parsed(
                            ItemsView { messages: seq![m], ..no_items() },
                            items_spec(ts, e, (next + 1) as usize),
                        )
                    } else {
                        None
                    }
                },
                None => None,
            }
        } else if keyword_at(ts, q, "enum"@) {
            match penum_spec(ts, p, next) {
                Some((en, e)) => {
                    proof {
                        lemma_penum_progress(ts, p, next);
                    }
                    if next < usize::MAX {
                        join_parsed(
                            ItemsView { penums: seq![en], ..no_items() },
                            items_spec(ts, e, (next + 1) as usize),
                        )
                    } else {
                        None
                    }
                },
                None => None,
            }
        } else if keyword_at(ts, q, "package"@) {
            match word_at(ts, q + 1) {
                Some(name) => if punct_at(ts, q + 2, ';') {
                    proof {
                        lemma_leading_comments(ts, p);
                    }
                    join_parsed(
                        ItemsView { package: Some(name), ..no_items() },
                        items_spec(ts, q + 3, next),
                    )
                } else {
                    None
                },
                None => None,
            }
        } else if keyword_at(ts, q, "import"@) {
            match str_at(ts, q + 1) {
                Some(path) => if punct_at(ts, q + 2, ';') {
                    proof {
                        lemma_leading_comments(ts, p);
                    }
                    join_parsed(
                        ItemsView { imports: seq![path], ..no_items() },
                        items_spec(ts, q + 3, next),
                    )
                } else {
                    None
                },
                None => None,
            }
        } else if keyword_at(ts, q, "syntax"@) && punct_at(ts, q + 1, '=') && str_at(
            ts,
            q + 2,
        ) is Some && punct_at(ts, q + 3, ';') {
            proof {
                lemma_leading_comments(ts, p);
            }
            items_spec(ts, q + 4, next)
        } else {
            None
        }
    }
}

/// What reading the schema text `s` gives: its tokens must follow the grammar, and it must
/// declare at least one message or enum. The package is empty when none is declared.
pub open spec fn parse_spec(s: Seq<char>) -> Result<MessagesView, ParseErrorKind> {
    match lex(s) {
        Err(i) => Err(ParseErrorKind::Lex(i)),
        Ok(ts) => match items_spec(ts, 0, 0) {
            None => Err(ParseErrorKind::Syntax),
            Some(it) => if it.messages.len() + it.penums.len() == 0 {
                Err(ParseErrorKind::Empty)
            } else {
                Ok(
                    MessagesView {
                        package: match it.package {
                            Some(p) => p,
                            None => seq![],
                        },
                        messages: it.messages,
                        penums: it.penums,
                        imports: it.imports,
                    },
                )
            },
        },
    }
}

/// Which way reading a schema failed.
pub enum ParseErrorKind {
    Lex(int),
    Syntax,
    Empty,
}

impl Message {
    /// The message at position `pos`, given its position `index` among the schema's
    /// messages and enums, with the position after it.
    pub fn parse(tokens: &Vec<Token>, pos: usize, index: usize) -> (r: Result<
        (Message, usize),
        ParseError,
    >)
        requires
            pos <= tokens.len(),
        ensures
            parsed_as(r, message_spec(tokens_view(tokens@), pos as int, index)),
    {
        let ghost ts = tokens_view(tokens@);
        let (comments, q) = Comments::parse(tokens, pos);
        proof {
            lemma_leading_comments(ts, pos as int);
        }
        if !is_keyword(tokens, q, "message") {
            return Err(ParseError::Syntax);
        }
        let name = match get_word(tokens, q + 1) {
            Some(w) => string_of(w),
            None => {
                return Err(ParseError::Syntax);
            },
        };
        if !is_punct_at(tokens, q + 2, '{') {
            return Err(ParseError::Syntax);
        }
        let mut fields: Vec<Field> = Vec::new();
        let mut r = q + 3;
        loop
            invariant
                ts == tokens_view(tokens@),
                q + 3 <= r <= tokens.len(),
                leading_comments(ts, pos as int) == (comments@, q as int),
                keyword_at(ts, q as int, "message"@),
                word_at(ts, q + 1) == Some(name@),
                punct_at(ts, q + 2, '{'),
                message_body(ts, q + 3) == match message_body(ts, r as int) {
                    Some((fs, cs, e)) => Some((fields_view(fields@) + fs, cs, e)),
                    None => None,
                },
            decreases tokens.len() - r,
        {
            let (trailing, t) = Comments::parse(tokens, r);
            proof {
                lemma_leading_comments(ts, r as int);
            }
            if is_punct_at(tokens, t, '}') {
                let mut all = comments;
                all.extend(&trailing);
                let m = Message { name, fields, comments: all, index };
                assert(fields_view(fields@) + seq![] =~= fields_view(fields@));
                return Ok((m, t + 1));
            }
            let (f, r2) = match Field::parse(tokens, r) {
                Ok(x) => x,
                Err(e) => {
                    return Err(e);
                },
            };
            proof {
                lemma_field_progress(ts, r as int);
            }
            let ghost before = fields_view(fields@);
            fields.push(f);
            assert(fields_view(fields@) =~= before.push(f@));
            proof {
                match message_body(ts, r2 as int) {
                    Some((fs, cs, e)) => {
                        assert(before + (seq![f@] + fs) =~= fields_view(fields@) + fs);
                    },
                    None => {},
                }
            }
            r = r2;
        }
    }
}

pub proof fn lemma_join_parsed_assoc(a: ItemsView, b: ItemsView, r: Option<ItemsView>)
    ensures
        join_parsed(a, join_parsed(b, r)) == join_parsed(join_items(a, b), r),
{
    if let Some(c) = r {
        assert(join_items(a, join_items(b, c)).messages =~= join_items(join_items(a, b), c).messages);
        assert(join_items(a, join_items(b, c)).penums =~= join_items(join_items(a, b), c).penums);
        assert(join_items(a, join_items(b, c)).imports =~= join_items(join_items(a, b), c).imports);
    }
}

/// What the declarations read so far amount to.
pub open spec fn items_so_far(
    package: Option<String>,
    messages: Seq<Message>,
    penums: Seq<PEnum>,
    imports: Seq<String>,
) -> ItemsView {
    ItemsView {
        package: match package {
            Some(p) => Some(p@),
            None => None,
        },
        messages: messages.map_values(|m: Message| m@),
        penums: penums.map_values(|e: PEnum| e@),
        imports: imports.map_values(|s: String| s@),
    }
}

impl Messages {
    /// Reads the schema text `data` (from the file named `file`, which only serves to name
    /// it in the error for a schema with no message and no enum).
    pub fn parse(data: String, file: String) -> (r: Result<Messages, ParseError>)
        ensures
            match r {
                Ok(m) => parse_spec(data@) == Ok::<MessagesView, ParseErrorKind>(m@),
                Err(ParseError::Lex(i)) => parse_spec(data@) == Err::<
                    MessagesView,
                    ParseErrorKind,
                >(ParseErrorKind::Lex(i as int)),
                Err(ParseError::Syntax) => parse_spec(data@) == Err::<
                    MessagesView,
                    ParseErrorKind,
                >(ParseErrorKind::Syntax),
                Err(ParseError::Empty(f)) => parse_spec(data@) == Err::<
                    MessagesView,
                    ParseErrorKind,
                >(ParseErrorKind::Empty) && f@ == file@,
            },
    {
        let chars = chars_of(data.as_str());
        let token_vec = match ProtoParser::tokenize(&chars) {
            Ok(ts) => ts,
            Err(i) => {
                return Err(ParseError::Lex(i));
            },
        };
        let tokens = &token_vec;
        let ghost ts = tokens_view(tokens@);
        let mut package: Option<String> = None;
        let mut messages: Vec<Message> = Vec::new();
        let mut penums: Vec<PEnum> = Vec::new();
        let mut imports: Vec<String> = Vec::new();
        let mut object_counter: usize = 0;
        let mut p: usize = 0;
        loop
            invariant
                ts == tokens_view(tokens@),
                lex(data@) == Ok::<Seq<TokenView>, int>(ts),
                p <= tokens.len(),
                object_counter == messages.len() + penums.len(),
                items_spec(ts, 0, 0) == join_parsed(
                    items_so_far(package, messages@, penums@, imports@),
                    items_spec(ts, p as int, object_counter),
                ),
            ensures
                object_counter == messages.len() + penums.len(),
                items_spec(ts, 0, 0) == Some(
                    items_so_far(package, messages@, penums@, imports@),
                ),
            decreases tokens.len() - p,
        {
            let ghost acc = items_so_far(package, messages@, penums@, imports@);
            let (_, q) = Comments::parse(tokens, p);
            proof {
                lemma_leading_comments(ts, p as int);
            }
            if q >= tokens.len() {
                assert(join_items(acc, no_items()) == acc) by {
                    assert(acc.messages + seq![] =~= acc.messages);
                    assert(acc.penums + seq![] =~= acc.penums);
                    assert(acc.imports + seq![] =~= acc.imports);
                }
                break ;
            }
            if is_keyword(tokens, q, "message") {
                let (m, e) = match Message::parse(tokens, p, object_counter) {
                    Ok(x) => x,
                    Err(err) => {
                        return Err(err);
                    },
                };
                if object_counter == usize::MAX {
                    return Err(ParseError::Syntax);
                }
                proof {
                    lemma_message_progress(ts, p as int, object_counter);
                    lemma_join_parsed_assoc(
                        acc,
                        ItemsView { messages: seq![m@], ..no_items() },
                        items_spec(ts, e as int, (object_counter + 1) as usize),
                    );
                }
                messages.push(m);
                proof {
                    let now = items_so_far(package, messages@, penums@, imports@);
                    let x = join_items(acc, ItemsView { messages: seq![messages@.last()@], ..no_items() });
                    assert(now.messages =~= x.messages);
                    assert(now.penums =~= x.penums);
                    assert(now.imports =~= x.imports);
                }
                object_counter = object_counter + 1;
                p = e;
            } else if is_keyword(tokens, q, "enum") {
                let (en, e) = match PEnum::parse(tokens, p, object_counter) {
                    Ok(x) => x,
                    Err(err) => {
                        return Err(err);
                    },
                };
                if object_counter == usize::MAX {
                    return Err(ParseError::Syntax);
                }
                proof {
                    lemma_penum_progress(ts, p as int, object_counter);
                    lemma_join_parsed_assoc(
                        acc,
                        ItemsView { penums: seq![en@], ..no_items() },
                        items_spec(ts, e as int, (object_counter + 1) as usize),
                    );
                }
                penums.push(en);
                proof {
                    let now = items_so_far(package, messages@, penums@, imports@);
                    let x = join_items(acc, ItemsView { penums: seq![penums@.last()@], ..no_items() });
                    assert(now.messages =~= x.messages);
                    assert(now.penums =~= x.penums);
                    assert(now.imports =~= x.imports);
                }
                object_counter = object_counter + 1;
                p = e;
            } else if is_keyword(tokens, q, "package") {
                let name = match get_word(tokens, q + 1) {
                    Some(w) => string_of(w),
                    None => {
                        return Err(ParseError::Syntax);
                    },
                };
                if !is_punct_at(tokens, q + 2, ';') {
                    return Err(ParseError::Syntax);
                }
                proof {
                    lemma_join_parsed_assoc(
                        acc,
                        ItemsView { package: Some(name@), ..no_items() },
                        items_spec(ts, q + 3, object_counter),
                    );
                }
                package = Some(name);
                proof {
                    let now = items_so_far(package, messages@, penums@, imports@);
                    let x = join_items(acc, ItemsView { package: Some(now.package->0), ..no_items() });
                    assert(now.messages =~= x.messages);
                    assert(now.penums =~= x.penums);
                    assert(now.imports =~= x.imports);
                }
                p = q + 3;
            } else if is_keyword(tokens, q, "import") {
                let path = match get_str(tokens, q + 1) {
                    Some(w) => string_of(w),
                    None => {
                        return Err(ParseError::Syntax);
                    },
                };
                if !is_punct_at(tokens, q + 2, ';') {
                    return Err(ParseError::Syntax);
                }
                proof {
                    lemma_join_parsed_assoc(
                        acc,
                        ItemsView { imports: seq![path@], ..no_items() },
                        items_spec(ts, q + 3, object_counter),
                    );
                }
                imports.push(path);
                proof {
                    let now = items_so_far(package, messages@, penums@, imports@);
                    let x = join_items(acc, ItemsView { imports: seq![imports@.last()@], ..no_items() });
                    assert(now.messages =~= x.messages);
                    assert(now.penums =~= x.penums);
                    assert(now.imports =~= x.imports);
                }
                p = q + 3;
            } else if is_keyword(tokens, q, "syntax") {
                if !(is_punct_at(tokens, q + 1, '=')) {
                    return Err(ParseError::Syntax);
                }
                if get_str(tokens, q + 2).is_none() {
                    return Err(ParseError::Syntax);
                }
                if !is_punct_at(tokens, q + 3, ';') {
                    return Err(ParseError::Syntax);
                }
                p = q + 4;
            } else {
                return Err(ParseError::Syntax);
            }
        }
        if object_counter == 0 {
            return Err(ParseError::Empty(file));
        }
        let package = match package {
            Some(p) => p,
            None => String::new(),
        };
        Ok(Messages { package, messages, penums, imports })
    }
}

} // verus!
