//! The schema's tokens, and the tokenizer that cuts source text into them.
use crate::text::chars_of;
use vstd::prelude::*;

verus! {

/// One token of a schema.
#[derive(Debug)]
pub enum Token {
    /// An identifier or keyword: a letter or `_`, then letters, digits, `_` and `.`.
    Word(Vec<char>),
    /// A run of decimal digits, possibly after a `-`.
    Number(Vec<char>),
    /// A double-quoted string, quotes included; a backslash escapes the next character.
    Str(Vec<char>),
    /// A line comment: `//` and what follows it up to the end of the line.
    Comment(Vec<char>),
    /// One of `{ } = ; [ ]`.
    Punct(char),
}

/// What a token holds.
pub enum TokenView {
    Word(Seq<char>),
    Number(Seq<char>),
    Str(Seq<char>),
    Comment(Seq<char>),
    Punct(char),
}

impl View for Token {
    type V = TokenView;

    open spec fn view(&self) -> TokenView {
        match self {
            Token::Word(v) => TokenView::Word(v@),
            Token::Number(v) => TokenView::Number(v@),
            Token::Str(v) => TokenView::Str(v@),
            Token::Comment(v) => TokenView::Comment(v@),
            Token::Punct(c) => TokenView::Punct(*c),
        }
    }
}

/// What a sequence of tokens holds.
pub open spec fn tokens_view(ts: Seq<Token>) -> Seq<TokenView> {
    ts.map_values(|t: Token| t@)
}

pub open spec fn is_space(c: char) -> bool {
    c == ' ' || c == '\t' || c == '\n' || c == '\r'
}

pub open spec fn is_letter(c: char) -> bool {
    ('a' <= c && c <= 'z') || ('A' <= c && c <= 'Z') || c == '_'
}

pub open spec fn is_digit(c: char) -> bool {
    '0' <= c && c <= '9'
}

pub open spec fn is_word_char(c: char) -> bool {
    is_letter(c) || is_digit(c) || c == '.'
}

pub open spec fn is_punct(c: char) -> bool {
    c == '{' || c == '}' || c == '=' || c == ';' || c == '[' || c == ']'
}

pub open spec fn is_line_end(c: char) -> bool {
    c == '\n' || c == '\r'
}

/// The position after the run of word characters that starts at `i`.
pub open spec fn word_end(s: Seq<char>, i: int) -> int
    decreases s.len() - i,
{
    if 0 <= i < s.len() && is_word_char(s[i]) {
        word_end(s, i + 1)
    } else {
        i
    }
}

/// The position after the run of digits that starts at `i`.
pub open spec fn digits_end(s: Seq<char>, i: int) -> int
    decreases s.len() - i,
{
    if 0 <= i < s.len() && is_digit(s[i]) {
        digits_end(s, i + 1)
    } else {
        i
    }
}

/// The position of the first line end at or after `i` (or the end of `s`).
pub open spec fn line_end(s: Seq<char>, i: int) -> int
    decreases s.len() - i,
{
    if 0 <= i < s.len() && !is_line_end(s[i]) {
        line_end(s, i + 1)
    } else {
        i
    }
}

/// The position after the closing quote of a string whose contents start at `i`, if the
/// string is closed.
pub open spec fn string_end(s: Seq<char>, i: int) -> Option<int>
    decreases s.len() - i,
{
    if i < 0 || i >= s.len() {
        None
    } else if s[i] == '"' {
        Some(i + 1)
    } else if s[i] == '\\' {
        if i + 1 < s.len() {
            string_end(s, i + 2)
        } else {
            None
        }
    } else {
        string_end(s, i + 1)
    }
}

pub proof fn lemma_word_end(s: Seq<char>, i: int)
    requires
        0 <= i,
    ensures
        i <= word_end(s, i),
        i <= s.len() ==> word_end(s, i) <= s.len(),
        forall|k: int| i <= k < word_end(s, i) ==> is_word_char(#[trigger] s[k]),
        word_end(s, i) < s.len() ==> !is_word_char(s[word_end(s, i)]),
    decreases s.len() - i,
{
    if 0 <= i < s.len() && is_word_char(s[i]) {
        lemma_word_end(s, i + 1);
    }
}

pub proof fn lemma_digits_end(s: Seq<char>, i: int)
    requires
        0 <= i,
    ensures
        i <= digits_end(s, i),
        i <= s.len() ==> digits_end(s, i) <= s.len(),
        forall|k: int| i <= k < digits_end(s, i) ==> is_digit(#[trigger] s[k]),
        digits_end(s, i) < s.len() ==> !is_digit(s[digits_end(s, i)]),
    decreases s.len() - i,
{
    if 0 <= i < s.len() && is_digit(s[i]) {
        lemma_digits_end(s, i + 1);
    }
}

pub proof fn lemma_line_end(s: Seq<char>, i: int)
    requires
        0 <= i,
    ensures
        i <= line_end(s, i),
        i <= s.len() ==> line_end(s, i) <= s.len(),
        line_end(s, i) < s.len() ==> is_line_end(s[line_end(s, i)]),
    decreases s.len() - i,
{
    if 0 <= i < s.len() && !is_line_end(s[i]) {
        lemma_line_end(s, i + 1);
    }
}

pub proof fn lemma_string_end(s: Seq<char>, i: int)
    ensures
        string_end(s, i) matches Some(j) ==> 0 <= i < j <= s.len(),
    decreases s.len() - i,
{
    if 0 <= i < s.len() && s[i] != '"' {
        if s[i] == '\\' {
            if i + 1 < s.len() {
                lemma_string_end(s, i + 2);
            }
        } else {
            lemma_string_end(s, i + 1);
        }
    }
}

/// `t` put in front of the tokens of a successful tokenization.
pub open spec fn prepend_token(t: TokenView, r: Result<Seq<TokenView>, int>) -> Result<
    Seq<TokenView>,
    int,
> {
    match r {
        Ok(ts) => Ok(seq![t] + ts),
        Err(e) => Err(e),
    }
}

/// `pre` put in front of the tokens of a successful tokenization.
pub open spec fn prepend_tokens(pre: Seq<TokenView>, r: Result<Seq<TokenView>, int>) -> Result<
    Seq<TokenView>,
    int,
> {
    match r {
        Ok(ts) => Ok(pre + ts),
        Err(e) => Err(e),
    }
}

/// The tokens of `s` from position `i` on, or the position of the first character that
/// starts no token. Whitespace separates tokens and is dropped.
pub open spec fn lex_from(s: Seq<char>, i: int) -> Result<Seq<TokenView>, int>
    decreases s.len() - i,
{
    if i < 0 || i >= s.len() {
        Ok(seq![])
    } else {
        let c = s[i];
        if is_space(c) {
            lex_from(s, i + 1)
        } else if c == '/' && i + 1 < s.len() && s[i + 1] == '/' {
            let j = line_end(s, i + 2);
            proof {
                lemma_line_end(s, i + 2);
            }
            prepend_token(TokenView::Comment(s.subrange(i, j)), lex_from(s, j))
        } else if is_letter(c) {
            let j = word_end(s, i + 1);
            proof {
                lemma_word_end(s, i + 1);
            }
            prepend_token(TokenView::Word(s.subrange(i, j)), lex_from(s, j))
        } else if is_digit(c) || (c == '-' && i + 1 < s.len() && is_digit(s[i + 1])) {
            let j = digits_end(s, i + 1);
            proof {
                lemma_digits_end(s, i + 1);
            }
            prepend_token(TokenView::Number(s.subrange(i, j)), lex_from(s, j))
        } else if c == '"' {
            match string_end(s, i + 1) {
                Some(j) => {
                    proof {
                        lemma_string_end(s, i + 1);
                    }
                    prepend_token(TokenView::Str(s.subrange(i, j)), lex_from(s, j))
                },
                None => Err(i),
            }
        } else if is_punct(c) {
            prepend_token(TokenView::Punct(c), lex_from(s, i + 1))
        } else {
            Err(i)
        }
    }
}

/// The tokens of `s`, or the position of the first character that starts no token.
pub open spec fn lex(s: Seq<char>) -> Result<Seq<TokenView>, int> {
    lex_from(s, 0)
}

proof fn lemma_push_token(old: Seq<Token>, new: Seq<Token>, r: Result<Seq<TokenView>, int>)
    requires
        new == old.push(new.last()),
    ensures
        prepend_tokens(tokens_view(old), prepend_token(new.last()@, r)) == prepend_tokens(
            tokens_view(new),
            r,
        ),
{
    assert(tokens_view(new) =~= tokens_view(old).push(new.last()@));
    match r {
        Ok(ts) => {
            assert(tokens_view(old) + (seq![new.last()@] + ts) =~= tokens_view(new) + ts);
        },
        Err(_) => {},
    }
}

fn is_word_char_exec(c: char) -> (r: bool)
    ensures
        r == is_word_char(c),
{
    ('a' <= c && c <= 'z') || ('A' <= c && c <= 'Z') || c == '_' || ('0' <= c && c <= '9') || c
        == '.'
}

/// The grammar of the schema language, with its tokenizer.
pub struct ProtoParser;

impl ProtoParser {
    /// Cuts `s` into tokens; fails with the position of the first character that starts
    /// no token.
    pub fn tokenize(s: &Vec<char>) -> (r: Result<Vec<Token>, usize>)
        ensures
            match r {
                Ok(ts) => lex(s@) == Ok::<Seq<TokenView>, int>(tokens_view(ts@)),
                Err(p) => lex(s@) == Err::<Seq<TokenView>, int>(p as int),
            },
    {
        let mut tokens: Vec<Token> = Vec::new();
        let mut i: usize = 0;
        let n = s.len();
        while i < n
            invariant
                n == s@.len(),
                i <= n,
                lex(s@) == prepend_tokens(tokens_view(tokens@), lex_from(s@, i as int)),
            decreases n - i,
        {
            let c = s[i];
            let ghost old_tokens = tokens@;
            if c == ' ' || c == '\t' || c == '\n' || c == '\r' {
                i = i + 1;
            } else if c == '/' && i + 1 < n && s[i + 1] == '/' {
                let mut j = i + 2;
                while j < n && s[j] != '\n' && s[j] != '\r'
                    invariant
                        i + 2 <= j <= n,
                        n == s@.len(),
                        line_end(s@, i + 2) == line_end(s@, j as int),
                    decreases n - j,
                {
                    j = j + 1;
                }
                let mut text: Vec<char> = Vec::new();
                let mut k = i;
                while k < j
                    invariant
                        i <= k <= j <= n,
                        n == s@.len(),
                        text@ == s@.subrange(i as int, k as int),
                    decreases j - k,
                {
                    text.push(s[k]);
                    k = k + 1;
                    assert(text@ =~= s@.subrange(i as int, k as int));
                }
                tokens.push(Token::Comment(text));
                proof {
                    lemma_push_token(old_tokens, tokens@, lex_from(s@, j as int));
                }
                i = j;
            } else if ('a' <= c && c <= 'z') || ('A' <= c && c <= 'Z') || c == '_' {
                let mut j = i + 1;
                while j < n && is_word_char_exec(s[j])
                    invariant
                        i + 1 <= j <= n,
                        n == s@.len(),
                        word_end(s@, i + 1) == word_end(s@, j as int),
                    decreases n - j,
                {
                    j = j + 1;
                }
                let mut text: Vec<char> = Vec::new();
                let mut k = i;
                while k < j
                    invariant
                        i <= k <= j <= n,
                        n == s@.len(),
                        text@ == s@.subrange(i as int, k as int),
                    decreases j - k,
                {
                    text.push(s[k]);
                    k = k + 1;
                    assert(text@ =~= s@.subrange(i as int, k as int));
                }
                tokens.push(Token::Word(text));
                proof {
                    lemma_push_token(old_tokens, tokens@, lex_from(s@, j as int));
                }
                i = j;
            } else if ('0' <= c && c <= '9') || (c == '-' && i + 1 < n && '0' <= s[i + 1] && s[i
                + 1] <= '9') {
                let mut j = i + 1;
                while j < n && '0' <= s[j] && s[j] <= '9'
                    invariant
                        i + 1 <= j <= n,
                        n == s@.len(),
                        digits_end(s@, i + 1) == digits_end(s@, j as int),
                    decreases n - j,
                {
                    j = j + 1;
                }
                let mut text: Vec<char> = Vec::new();
                let mut k = i;
                while k < j
                    invariant
                        i <= k <= j <= n,
                        n == s@.len(),
                        text@ == s@.subrange(i as int, k as int),
                    decreases j - k,
                {
                    text.push(s[k]);
                    k = k + 1;
                    assert(text@ =~= s@.subrange(i as int, k as int));
                }
                tokens.push(Token::Number(text));
                proof {
                    lemma_push_token(old_tokens, tokens@, lex_from(s@, j as int));
                }
                i = j;
            } else if c == '"' {
                let mut j = i + 1;
                let mut closed = false;
                while j < n && !closed
                    invariant
                        i + 1 <= j <= n,
                        n == s@.len(),
                        !closed ==> string_end(s@, i + 1) == string_end(s@, j as int),
                        closed ==> string_end(s@, i + 1) == Some(j as int) && j <= n,
                    decreases n - j,
                {
                    if s[j] == '"' {
                        closed = true;
                        j = j + 1;
                    } else if s[j] == '\\' {
                        if j + 1 < n {
                            j = j + 2;
                        } else {
                            j = n;
                        }
                    } else {
                        j = j + 1;
                    }
                }
                if !closed {
                    assert(string_end(s@, j as int) is None);
                    return Err(i);
                }
                let mut text: Vec<char> = Vec::new();
                let mut k = i;
                while k < j
                    invariant
                        i <= k <= j <= n,
                        n == s@.len(),
                        text@ == s@.subrange(i as int, k as int),
                    decreases j - k,
                {
                    text.push(s[k]);
                    k = k + 1;
                    assert(text@ =~= s@.subrange(i as int, k as int));
                }
                tokens.push(Token::Str(text));
                proof {
                    lemma_push_token(old_tokens, tokens@, lex_from(s@, j as int));
                }
                i = j;
            } else if c == '{' || c == '}' || c == '=' || c == ';' || c == '[' || c == ']' {
                tokens.push(Token::Punct(c));
                proof {
                    lemma_push_token(old_tokens, tokens@, lex_from(s@, i + 1));
                }
                i = i + 1;
            } else {
                return Err(i);
            }
        }
        assert(prepend_tokens(tokens_view(tokens@), lex_from(s@, i as int)) == Ok::<
            Seq<TokenView>,
            int,
        >(tokens_view(tokens@))) by {
            assert(tokens_view(tokens@) + seq![] =~= tokens_view(tokens@));
        }
        Ok(tokens)
    }
}

/// The word at position `p`, if there is one.
pub open spec fn word_at(ts: Seq<TokenView>, p: int) -> Option<Seq<char>> {
    if 0 <= p < ts.len() {
        match ts[p] {
            TokenView::Word(w) => Some(w),
            _ => None,
        }
    } else {
        None
    }
}

/// The number at position `p`, if there is one.
pub open spec fn number_at(ts: Seq<TokenView>, p: int) -> Option<Seq<char>> {
    if 0 <= p < ts.len() {
        match ts[p] {
            TokenView::Number(w) => Some(w),
            _ => None,
        }
    } else {
        None
    }
}

/// The string at position `p` (quotes included), if there is one.
pub open spec fn str_at(ts: Seq<TokenView>, p: int) -> Option<Seq<char>> {
    if 0 <= p < ts.len() {
        match ts[p] {
            TokenView::Str(w) => Some(w),
            _ => None,
        }
    } else {
        None
    }
}

/// Whether the token at position `p` is the word `kw`.
pub open spec fn keyword_at(ts: Seq<TokenView>, p: int, kw: Seq<char>) -> bool {
    word_at(ts, p) == Some(kw)
}

/// Whether the token at position `p` is the punctuation `c`.
pub open spec fn punct_at(ts: Seq<TokenView>, p: int, c: char) -> bool {
    0 <= p < ts.len() && ts[p] == TokenView::Punct(c)
}

/// The word at position `p`, if there is one.
pub fn get_word(tokens: &Vec<Token>, p: usize) -> (r: Option<&Vec<char>>)
    ensures
        match r {
            Some(w) => word_at(tokens_view(tokens@), p as int) == Some(w@),
            None => word_at(tokens_view(tokens@), p as int) is None,
        },
{
    if p < tokens.len() {
        match &tokens[p] {
            Token::Word(w) => Some(w),
            _ => None,
        }
    } else {
        None
    }
}

/// The number at position `p`, if there is one.
pub fn get_number(tokens: &Vec<Token>, p: usize) -> (r: Option<&Vec<char>>)
    ensures
        match r {
            Some(w) => number_at(tokens_view(tokens@), p as int) == Some(w@),
            None => number_at(tokens_view(tokens@), p as int) is None,
        },
{
    if p < tokens.len() {
        match &tokens[p] {
            Token::Number(w) => Some(w),
            _ => None,
        }
    } else {
        None
    }
}

/// The string at position `p`, if there is one.
pub fn get_str(tokens: &Vec<Token>, p: usize) -> (r: Option<&Vec<char>>)
    ensures
        match r {
            Some(w) => str_at(tokens_view(tokens@), p as int) == Some(w@),
            None => str_at(tokens_view(tokens@), p as int) is None,
        },
{
    if p < tokens.len() {
        match &tokens[p] {
            Token::Str(w) => Some(w),
            _ => None,
        }
    } else {
        None
    }
}

/// Whether the token at position `p` is the word `kw`.
pub fn is_keyword(tokens: &Vec<Token>, p: usize, kw: &str) -> (r: bool)
    ensures
        r == keyword_at(tokens_view(tokens@), p as int, kw@),
{
    match get_word(tokens, p) {
        Some(w) => crate::text::chars_eq_str(w, kw),
        None => false,
    }
}

/// Whether the token at position `p` is the punctuation `c`.
pub fn is_punct_at(tokens: &Vec<Token>, p: usize, c: char) -> (r: bool)
    ensures
        r == punct_at(tokens_view(tokens@), p as int, c),
{
    if p < tokens.len() {
        match &tokens[p] {
            Token::Punct(d) => *d == c,
            _ => false,
        }
    } else {
        false
    }
}

} // verus!
