//! Properties that reading a schema and compiling it share.
use crate::ast::comments::{leading_comments, lemma_leading_comments};
use crate::ast::compile_go::{
    dep_entries,
    go_byte,
    go_bytes,
    go_string_const,
    hex_digit,
    go_message,
    go_messages_state,
    imported_field,
    last_entry,
    requalified_by,
    type_entries,
    type_index,
};
use crate::ast::compile_python::{field_compilable, message_compilable, schema_compilable};
use crate::ast::field::{FieldView, field_spec, lemma_field_progress};
use crate::ast::lexer::{TokenView, keyword_at, lex, punct_at};
use crate::ast::message::{
    MessageView,
    MessagesView,
    items_spec,
    lemma_message_progress,
    message_body,
    message_spec,
    parse_spec,
};
use crate::ast::penum::{PEnumView, lemma_penum_progress, penum_spec};
use crate::ast::ptype::{PTypeView, ptype_is_nested, ptype_is_repeated, ptype_name};
use vstd::prelude::*;

verus! {

proof fn lemma_field_spec_compilable(ts: Seq<TokenView>, p: int)
    ensures
        field_spec(ts, p) matches Some((f, _)) ==> field_compilable(f),
{
}

proof fn lemma_message_body_compilable(ts: Seq<TokenView>, r: int)
    ensures
        message_body(ts, r) matches Some((fs, _, _)) ==> forall|i: int|
            0 <= i < fs.len() ==> field_compilable(#[trigger] fs[i]),
    decreases ts.len() - r,
{
    if 0 <= r <= ts.len() {
        let (cs, q) = leading_comments(ts, r);
        if !punct_at(ts, q, '}') {
            if let Some((f, r2)) = field_spec(ts, r) {
                lemma_field_progress(ts, r);
                lemma_field_spec_compilable(ts, r);
                lemma_message_body_compilable(ts, r2);
                if let Some((fs, _, _)) = message_body(ts, r2) {
                    let all = seq![f] + fs;
                    assert forall|i: int| 0 <= i < all.len() implies field_compilable(
                        #[trigger] all[i],
                    ) by {
                        if i > 0 {
                            assert(all[i] == fs[i - 1]);
                        }
                    }
                }
            }
        }
    }
}

proof fn lemma_items_compilable(ts: Seq<TokenView>, p: int, next: usize)
    ensures
        items_spec(ts, p, next) matches Some(it) ==> forall|i: int|
            0 <= i < it.messages.len() ==> message_compilable(#[trigger] it.messages[i]),
    decreases ts.len() - p,
{
    if 0 <= p <= ts.len() {
        lemma_leading_comments(ts, p);
        let (cs, q) = leading_comments(ts, p);
        if q >= ts.len() {
        } else if keyword_at(ts, q, "message"@) {
            lemma_message_progress(ts, p, next);
            lemma_message_body_compilable(ts, q + 3);
            if let Some((m, e)) = message_spec(ts, p, next) {
                if next < usize::MAX {
                    lemma_items_compilable(ts, e, (next + 1) as usize);
                    if let Some(rest) = items_spec(ts, e, (next + 1) as usize) {
                        let all = seq![m] + rest.messages;
                        assert forall|i: int| 0 <= i < all.len() implies message_compilable(
                            #[trigger] all[i],
                        ) by {
                            if i > 0 {
                                assert(all[i] == rest.messages[i - 1]);
                            }
                        }
                    }
                }
            }
        } else if keyword_at(ts, q, "enum"@) {
            lemma_penum_progress(ts, p, next);
            if let Some((en, e)) = penum_spec(ts, p, next) {
                if next < usize::MAX {
                    lemma_items_compilable(ts, e, (next + 1) as usize);
                    if let Some(rest) = items_spec(ts, e, (next + 1) as usize) {
                        assert(seq![] + rest.messages =~= rest.messages);
                    }
                }
            }
        } else if keyword_at(ts, q, "package"@) || keyword_at(ts, q, "import"@) {
            if q + 3 <= ts.len() {
                lemma_items_compilable(ts, q + 3, next);
            }
            if let Some(rest) = items_spec(ts, q + 3, next) {
                assert(seq![] + rest.messages =~= rest.messages);
            }
        } else if q + 4 <= ts.len() {
            lemma_items_compilable(ts, q + 4, next);
        }
    }
}

/// Every schema that reading accepts can be compiled to Python: each of its `oneof`
/// groups comes with its alternatives.
pub proof fn lemma_parsed_schema_compilable(s: Seq<char>)
    ensures
        parse_spec(s) matches Ok(m) ==> schema_compilable(m),
{
    if let Ok(ts) = lex(s) {
        lemma_items_compilable(ts, 0, 0);
    }
}

/// Whether the messages `ms` and enums `es` are numbered from `lo` on: each has a
/// different number below `lo` plus their count, and the messages, like the enums, are
/// numbered in their order.
pub open spec fn numbered_from(ms: Seq<MessageView>, es: Seq<PEnumView>, lo: int) -> bool {
    let n = ms.len() + es.len();
    &&& forall|i: int| 0 <= i < ms.len() ==> lo <= #[trigger] ms[i].index < lo + n
    &&& forall|j: int| 0 <= j < es.len() ==> lo <= #[trigger] es[j].index < lo + n
    &&& forall|i: int, k: int| 0 <= i < k < ms.len() ==> #[trigger] ms[i].index < #[trigger] ms[k].index
    &&& forall|i: int, k: int| 0 <= i < k < es.len() ==> #[trigger] es[i].index < #[trigger] es[k].index
    &&& forall|i: int, j: int|
        0 <= i < ms.len() && 0 <= j < es.len() ==> #[trigger] ms[i].index != #[trigger] es[j].index
}

/// Whether the messages and enums of a schema are numbered from 0 on.
pub open spec fn objects_numbered(m: MessagesView) -> bool {
    numbered_from(m.messages, m.penums, 0)
}

proof fn lemma_items_numbered(ts: Seq<TokenView>, p: int, next: usize)
    ensures
        items_spec(ts, p, next) matches Some(it) ==> numbered_from(it.messages, it.penums, next as int),
    decreases ts.len() - p,
{
    if 0 <= p <= ts.len() {
        lemma_leading_comments(ts, p);
        let (cs, q) = leading_comments(ts, p);
        if q >= ts.len() {
        } else if keyword_at(ts, q, "message"@) {
            lemma_message_progress(ts, p, next);
            if let Some((m, e)) = message_spec(ts, p, next) {
                if next < usize::MAX {
                    lemma_items_numbered(ts, e, (next + 1) as usize);
                    if let Some(rest) = items_spec(ts, e, (next + 1) as usize) {
                        let ms = seq![m] + rest.messages;
                        let es = seq![] + rest.penums;
                        assert(es =~= rest.penums);
                        assert(m.index == next);
                        assert forall|i: int| 0 <= i < ms.len() implies next <= #[trigger] ms[i].index
                            < next + ms.len() + es.len() by {
                            if i > 0 {
                                assert(ms[i] == rest.messages[i - 1]);
                            }
                        }
                        assert forall|i: int, k: int| 0 <= i < k < ms.len() implies #[trigger] ms[i].index
                            < #[trigger] ms[k].index by {
                            assert(ms[k] == rest.messages[k - 1]);
                            if i > 0 {
                                assert(ms[i] == rest.messages[i - 1]);
                            }
                        }
                        assert forall|i: int, j: int|
                            0 <= i < ms.len() && 0 <= j < es.len() implies #[trigger] ms[i].index
                            != #[trigger] es[j].index by {
                            assert(es[j] == rest.penums[j]);
                            if i > 0 {
                                assert(ms[i] == rest.messages[i - 1]);
                            }
                        }
                    }
                }
            }
        } else if keyword_at(ts, q, "enum"@) {
            lemma_penum_progress(ts, p, next);
            if let Some((en, e)) = penum_spec(ts, p, next) {
                if next < usize::MAX {
                    lemma_items_numbered(ts, e, (next + 1) as usize);
                    if let Some(rest) = items_spec(ts, e, (next + 1) as usize) {
                        let es = seq![en] + rest.penums;
                        let ms = seq![] + rest.messages;
                        assert(ms =~= rest.messages);
                        assert(en.index == next);
                        assert forall|j: int| 0 <= j < es.len() implies next <= #[trigger] es[j].index
                            < next + ms.len() + es.len() by {
                            if j > 0 {
                                assert(es[j] == rest.penums[j - 1]);
                            }
                        }
                        assert forall|i: int, k: int| 0 <= i < k < es.len() implies #[trigger] es[i].index
                            < #[trigger] es[k].index by {
                            assert(es[k] == rest.penums[k - 1]);
                            if i > 0 {
                                assert(es[i] == rest.penums[i - 1]);
                            }
                        }
                        assert forall|i: int, j: int|
                            0 <= i < ms.len() && 0 <= j < es.len() implies #[trigger] ms[i].index
                            != #[trigger] es[j].index by {
                            assert(ms[i] == rest.messages[i]);
                            if j > 0 {
                                assert(es[j] == rest.penums[j - 1]);
                            }
                        }
                    }
                }
            }
        } else if keyword_at(ts, q, "package"@) || keyword_at(ts, q, "import"@) {
            if q + 3 <= ts.len() {
                lemma_items_numbered(ts, q + 3, next);
            }
            if let Some(rest) = items_spec(ts, q + 3, next) {
                assert(seq![] + rest.messages =~= rest.messages);
                assert(seq![] + rest.penums =~= rest.penums);
            }
        } else if q + 4 <= ts.len() {
            lemma_items_numbered(ts, q + 4, next);
        }
    }
}

/// Reading a schema numbers its messages and enums together, in the order in which they
/// are declared: each has a different number below their count, and the messages, like
/// the enums, are numbered in their order.
pub proof fn lemma_parsed_objects_numbered(s: Seq<char>)
    ensures
        parse_spec(s) matches Ok(m) ==> objects_numbered(m),
{
    if let Ok(ts) = lex(s) {
        lemma_items_numbered(ts, 0, 0);
    }
}

proof fn lemma_requalified_by_keeps_kind(t: PTypeView, ms: Seq<MessageView>, tmp: Seq<char>, n: int)
    ensures
        ptype_is_nested(requalified_by(t, ms, tmp, n)) == ptype_is_nested(t),
        ptype_is_repeated(requalified_by(t, ms, tmp, n)) == ptype_is_repeated(t),
        !ptype_is_nested(t) ==> requalified_by(t, ms, tmp, n) == t,
    decreases n,
{
    if n > 0 {
        lemma_requalified_by_keeps_kind(t, ms, tmp, n - 1);
    }
}

/// Resolving an import changes nothing of a field but the types that name messages or
/// enums: its name, comments, repeated flag, index, default and number of alternatives
/// stay, a type that names a message or enum still does and stays repeated or single as it
/// was, and a scalar type is left as it is.
pub proof fn lemma_imported_field_keeps(f: FieldView, ms: Seq<MessageView>, tmp: Seq<char>)
    ensures
        ({
            let g = imported_field(f, ms, tmp);
            &&& g.name == f.name
            &&& g.comments == f.comments
            &&& g.repeated == f.repeated
            &&& g.index == f.index
            &&& g.default == f.default
            &&& ptype_is_nested(g.ptype) == ptype_is_nested(f.ptype)
            &&& ptype_is_repeated(g.ptype) == ptype_is_repeated(f.ptype)
            &&& (!ptype_is_nested(f.ptype) ==> g.ptype == f.ptype)
            &&& (g.maybe_types is Some) == (f.maybe_types is Some)
            &&& (f.maybe_types is Some ==> g.maybe_types->0.len() == f.maybe_types->0.len())
        }),
{
    lemma_requalified_by_keeps_kind(f.ptype, ms, tmp, ms.len() as int);
}

/// Resolving an import against a module without messages leaves a field as it is.
pub proof fn lemma_imported_field_without_messages(f: FieldView, tmp: Seq<char>)
    ensures
        imported_field(f, seq![], tmp) == f,
    decreases f,
{
    if let Some(alts) = f.maybe_types {
        assert forall|i: int| 0 <= i < alts.len() implies imported_field(alts[i], seq![], tmp)
            == alts[i] by {
            lemma_imported_field_without_messages(alts[i], tmp);
        }
        assert(imported_field(f, seq![], tmp).maybe_types->0 =~= alts);
    }
}

proof fn lemma_last_entry_below(entries: Seq<(Seq<char>, usize)>, key: Seq<char>, n: int, bound: int)
    requires
        n <= entries.len(),
        forall|j: int| 0 <= j < entries.len() ==> #[trigger] entries[j].1 < bound,
    ensures
        last_entry(entries, key, n) matches Some(i) ==> i < bound,
    decreases n,
{
    if n > 0 {
        lemma_last_entry_below(entries, key, n - 1, bound);
    }
}

proof fn lemma_type_index_below(s: MessagesView, key: Seq<char>)
    requires
        objects_numbered(s),
    ensures
        type_index(s, key) matches Some(i) ==> i < s.messages.len() + s.penums.len(),
{
    let entries = type_entries(s);
    let n = (s.messages.len() + s.penums.len()) as int;
    assert forall|j: int| 0 <= j < entries.len() implies #[trigger] entries[j].1 < n by {
        if j < s.penums.len() {
            assert(entries[j].1 == s.penums[j].index);
        } else {
            assert(entries[j].1 == s.messages[j - s.penums.len()].index);
        }
    }
    lemma_last_entry_below(entries, key, entries.len() as int, n);
}

proof fn lemma_dep_entries_below(s: MessagesView, m: MessageView, deps: Seq<Seq<char>>, n: int)
    requires
        objects_numbered(s),
        n <= deps.len(),
    ensures
        forall|k: int|
            0 <= k < dep_entries(s, m, deps, n).len() ==> #[trigger] dep_entries(s, m, deps, n)[k].0
                < s.messages.len() + s.penums.len(),
    decreases n,
{
    if n > 0 {
        lemma_dep_entries_below(s, m, deps, n - 1);
        lemma_type_index_below(s, deps[n - 1]);
        let prev = dep_entries(s, m, deps, n - 1);
        let all = dep_entries(s, m, deps, n);
        assert forall|k: int| 0 <= k < all.len() implies #[trigger] all[k].0 < s.messages.len()
            + s.penums.len() by {
            if k < prev.len() {
                assert(all[k] == prev[k]);
            }
        }
    }
}

/// In the Go code of a schema whose messages and enums are numbered from 0 on, as reading
/// numbers them, each entry of the dependency table of the first `n` messages points
/// below the number of messages and enums.
pub proof fn lemma_go_deps_below(s: MessagesView, msg_types: Seq<char>, n: int)
    requires
        objects_numbered(s),
        n <= s.messages.len(),
    ensures
        forall|k: int|
            0 <= k < go_messages_state(s, msg_types, n).deps.len() ==> #[trigger] go_messages_state(
                s,
                msg_types,
                n,
            ).deps[k].0 < s.messages.len() + s.penums.len(),
    decreases n,
{
    if n > 0 {
        lemma_go_deps_below(s, msg_types, n - 1);
        let st = go_messages_state(s, msg_types, n - 1);
        let m = s.messages[n - 1];
        let deps = go_message(m, s.penums.map_values(|e: PEnumView| e.name)).3;
        lemma_dep_entries_below(s, m, deps, deps.len() as int);
        let all = go_messages_state(s, msg_types, n).deps;
        assert(all == st.deps + dep_entries(s, m, deps, deps.len() as int));
        assert forall|k: int| 0 <= k < all.len() implies #[trigger] all[k].0 < s.messages.len()
            + s.penums.len() by {
            if k >= st.deps.len() {
                assert(all[k] == dep_entries(s, m, deps, deps.len() as int)[k - st.deps.len()]);
            }
        }
    }
}

/// The value of a lowercase hexadecimal digit.
pub open spec fn hex_value(c: char) -> Option<nat> {
    if c == '0' {
        Some(0)
    } else if c == '1' {
        Some(1)
    } else if c == '2' {
        Some(2)
    } else if c == '3' {
        Some(3)
    } else if c == '4' {
        Some(4)
    } else if c == '5' {
        Some(5)
    } else if c == '6' {
        Some(6)
    } else if c == '7' {
        Some(7)
    } else if c == '8' {
        Some(8)
    } else if c == '9' {
        Some(9)
    } else if c == 'a' {
        Some(10)
    } else if c == 'b' {
        Some(11)
    } else if c == 'c' {
        Some(12)
    } else if c == 'd' {
        Some(13)
    } else if c == 'e' {
        Some(14)
    } else if c == 'f' {
        Some(15)
    } else {
        None
    }
}

/// The bytes `p` in front of the bytes read, if any were.
pub open spec fn bytes_before(p: Seq<u8>, r: Option<Seq<u8>>) -> Option<Seq<u8>> {
    match r {
        Some(x) => Some(p + x),
        None => None,
    }
}

/// The bytes that Go reads from `t`, the text of a string literal between its opening and
/// closing quotes, continued across lines by `" + ` and a newline followed by four spaces
/// and `"`; `None` where `t` is no such text in the escapes used here (`\n`, `\t`, `\b`,
/// `\\`, `\"` and `\x` with two lowercase hexadecimal digits) and printable ASCII.
pub open spec fn go_literal_bytes(t: Seq<char>) -> Option<Seq<u8>>
    decreases t.len(),
{
    if t.len() == 0 {
        Some(seq![])
    } else if t.len() >= 10 && t.take(10) == "\" + \n    \""@ {
        go_literal_bytes(t.skip(10))
    } else if t[0] == '\\' && t.len() >= 2 {
        if t[1] == 'n' {
            bytes_before(seq![10u8], go_literal_bytes(t.skip(2)))
        } else if t[1] == 't' {
            bytes_before(seq![9u8], go_literal_bytes(t.skip(2)))
        } else if t[1] == 'b' {
            bytes_before(seq![8u8], go_literal_bytes(t.skip(2)))
        } else if t[1] == '\\' {
            bytes_before(seq![92u8], go_literal_bytes(t.skip(2)))
        } else if t[1] == '"' {
            bytes_before(seq![34u8], go_literal_bytes(t.skip(2)))
        } else if t[1] == 'x' && t.len() >= 4 && hex_value(t[2]) is Some && hex_value(t[3]) is Some {
            bytes_before(
                seq![(hex_value(t[2])->0 * 16 + hex_value(t[3])->0) as u8],
                go_literal_bytes(t.skip(4)),
            )
        } else {
            None
        }
    } else if 32 <= (t[0] as int) <= 126 && t[0] != '\\' && t[0] != '"' {
        bytes_before(seq![(t[0] as int) as u8], go_literal_bytes(t.skip(1)))
    } else {
        None
    }
}

proof fn lemma_hex_digit_value(d: nat)
    requires
        d < 16,
    ensures
        hex_value(hex_digit(d)) == Some(d),
{
}

proof fn lemma_go_byte_read(b: u8, rest: Seq<char>)
    ensures
        go_literal_bytes(go_byte(b) + rest) == bytes_before(seq![b], go_literal_bytes(rest)),
{
    reveal_strlit("\" + \n    \"");
    let t = go_byte(b) + rest;
    if b == 10 {
        reveal_strlit("\\n\" + \n    \"");
        assert(t[0] == '\\');
        assert(t[1] == 'n');
        assert(t.len() >= 10 ==> t.take(10)[0] == '\\');
        let u = t.skip(2);
        assert(u.take(10) =~= "\" + \n    \""@);
        assert(u.skip(10) =~= rest);
        assert(go_literal_bytes(u) == go_literal_bytes(rest));
    } else if b == 92 {
        reveal_strlit("\\\\");
        assert(t.len() >= 10 ==> t.take(10)[0] == '\\');
        assert(t.skip(2) =~= rest);
    } else if b == 34 {
        reveal_strlit("\\\"");
        assert(t.len() >= 10 ==> t.take(10)[0] == '\\');
        assert(t.skip(2) =~= rest);
    } else if 32 <= b <= 126 {
        assert(t[0] == b as char);
        assert(t.len() >= 10 ==> t.take(10)[0] == t[0]);
        assert(t.skip(1) =~= rest);
    } else if b == 9 {
        reveal_strlit("\\t");
        assert(t.len() >= 10 ==> t.take(10)[0] == '\\');
        assert(t.skip(2) =~= rest);
    } else if b == 8 {
        reveal_strlit("\\b");
        assert(t.len() >= 10 ==> t.take(10)[0] == '\\');
        assert(t.skip(2) =~= rest);
    } else {
        reveal_strlit("\\x");
        lemma_hex_digit_value((b / 16) as nat);
        lemma_hex_digit_value((b % 16) as nat);
        assert(t[0] == '\\');
        assert(t[1] == 'x');
        assert(t[2] == hex_digit((b / 16) as nat));
        assert(t[3] == hex_digit((b % 16) as nat));
        assert(t.len() >= 10 ==> t.take(10)[0] == '\\');
        assert(t.skip(4) =~= rest);
        assert((b / 16) * 16 + b % 16 == b);
    }
}

proof fn lemma_go_bytes_read(bs: Seq<u8>, n: int, rest: Seq<char>)
    requires
        0 <= n <= bs.len(),
    ensures
        go_literal_bytes(go_bytes(bs, n) + rest) == bytes_before(bs.take(n), go_literal_bytes(rest)),
    decreases n,
{
    if n == 0 {
        assert(go_bytes(bs, n) + rest =~= rest);
        match go_literal_bytes(rest) {
            Some(x) => assert(bs.take(0) + x =~= x),
            None => {},
        }
    } else {
        let more = go_byte(bs[n - 1]) + rest;
        assert(go_bytes(bs, n) + rest =~= go_bytes(bs, n - 1) + more);
        lemma_go_bytes_read(bs, n - 1, more);
        lemma_go_byte_read(bs[n - 1], rest);
        match go_literal_bytes(rest) {
            Some(x) => assert(bs.take(n - 1) + (seq![bs[n - 1]] + x) =~= bs.take(n) + x),
            None => {},
        }
    }
}

/// Go reads the literal of a generated string constant back as the bytes it was made of.
pub proof fn lemma_go_string_round_trip(bs: Seq<u8>)
    ensures
        go_literal_bytes(go_bytes(bs, bs.len() as int)) == Some(bs),
{
    lemma_go_bytes_read(bs, bs.len() as int, seq![]);
    assert(go_bytes(bs, bs.len() as int) + seq![] =~= go_bytes(bs, bs.len() as int));
    assert(bs.take(bs.len() as int) + seq![] =~= bs);
}

/// Whether no message of `ms` has a `.` in its name.
pub open spec fn names_undotted(ms: Seq<MessageView>) -> bool {
    forall|i: int| 0 <= i < ms.len() ==> !(#[trigger] ms[i].name).contains('.')
}

proof fn lemma_requalified_by_dotted(t: PTypeView, ms: Seq<MessageView>, tmp: Seq<char>, n: int)
    requires
        names_undotted(ms),
        n <= ms.len(),
        ptype_name(t).contains('.'),
    ensures
        requalified_by(t, ms, tmp, n) == t,
    decreases n,
{
    if n > 0 {
        lemma_requalified_by_dotted(t, ms, tmp, n - 1);
        assert(!ms[n - 1].name.contains('.'));
    }
}

proof fn lemma_requalified_by_once(t: PTypeView, ms: Seq<MessageView>, tmp: Seq<char>, n: int)
    requires
        names_undotted(ms),
        n <= ms.len(),
    ensures
        requalified_by(t, ms, tmp, n) == t || ptype_name(requalified_by(t, ms, tmp, n)).contains('.'),
    decreases n,
{
    if n > 0 {
        lemma_requalified_by_once(t, ms, tmp, n - 1);
        let prev = requalified_by(t, ms, tmp, n - 1);
        assert(!ms[n - 1].name.contains('.'));
        let q = tmp + "."@ + ptype_name(prev);
        reveal_strlit(".");
        assert(q[tmp.len() as int] == '.');
        assert(q.contains('.'));
    }
}

/// Resolving the same import twice leaves a field as resolving it once, where no message
/// of the imported module has a `.` in its name: a requalified name holds a `.` and so
/// matches no message.
pub proof fn lemma_imported_field_idempotent(f: FieldView, ms: Seq<MessageView>, tmp: Seq<char>)
    requires
        names_undotted(ms),
    ensures
        imported_field(imported_field(f, ms, tmp), ms, tmp) == imported_field(f, ms, tmp),
    decreases f,
{
    let g = imported_field(f, ms, tmp);
    let n = ms.len() as int;
    lemma_requalified_by_once(f.ptype, ms, tmp, n);
    if g.ptype != f.ptype {
        lemma_requalified_by_dotted(g.ptype, ms, tmp, n);
    }
    if let Some(alts) = f.maybe_types {
        let galts = g.maybe_types->0;
        assert forall|i: int| 0 <= i < galts.len() implies imported_field(galts[i], ms, tmp)
            == galts[i] by {
            lemma_imported_field_idempotent(alts[i], ms, tmp);
        }
        assert(imported_field(g, ms, tmp).maybe_types->0 =~= galts);
    }
}

/// Whether every newline of `t` is followed by four spaces and a `"`: each line after the
/// first continues the string literal.
pub open spec fn lines_continue_literal(t: Seq<char>) -> bool {
    forall|i: int|
        0 <= i < t.len() && #[trigger] t[i] == '\n' ==> i + 5 < t.len() && t.subrange(i + 1, i + 6)
            == "    \""@
}

proof fn lemma_lines_concat(a: Seq<char>, b: Seq<char>)
    requires
        lines_continue_literal(a),
        lines_continue_literal(b),
    ensures
        lines_continue_literal(a + b),
{
    let t = a + b;
    assert forall|i: int| 0 <= i < t.len() && #[trigger] t[i] == '\n' implies i + 5 < t.len()
        && t.subrange(i + 1, i + 6) == "    \""@ by {
        if i < a.len() {
            assert(a[i] == '\n');
            assert(t.subrange(i + 1, i + 6) =~= a.subrange(i + 1, i + 6));
        } else {
            assert(b[i - a.len()] == '\n');
            assert(t.subrange(i + 1, i + 6) =~= b.subrange(i - a.len() + 1, i - a.len() + 6));
        }
    }
}

proof fn lemma_go_byte_lines(b: u8)
    ensures
        lines_continue_literal(go_byte(b)),
{
    reveal_strlit("    \"");
    let t = go_byte(b);
    if b == 10 {
        reveal_strlit("\\n\" + \n    \"");
        assert(t.subrange(7, 12) =~= "    \""@);
        assert forall|i: int| 0 <= i < t.len() && #[trigger] t[i] == '\n' implies i + 5 < t.len()
            && t.subrange(i + 1, i + 6) == "    \""@ by {
            assert(i == 6);
        }
    } else if b == 92 {
        reveal_strlit("\\\\");
    } else if b == 34 {
        reveal_strlit("\\\"");
    } else if 32 <= b <= 126 {
        assert(t[0] == b as char);
    } else if b == 9 {
        reveal_strlit("\\t");
    } else if b == 8 {
        reveal_strlit("\\b");
    } else {
        reveal_strlit("\\x");
        assert(t[2] == hex_digit((b / 16) as nat));
        assert(t[3] == hex_digit((b % 16) as nat));
    }
}

proof fn lemma_go_bytes_lines(bs: Seq<u8>, n: int)
    requires
        0 <= n <= bs.len(),
    ensures
        lines_continue_literal(go_bytes(bs, n)),
    decreases n,
{
    if n > 0 {
        lemma_go_bytes_lines(bs, n - 1);
        lemma_go_byte_lines(bs[n - 1]);
        lemma_lines_concat(go_bytes(bs, n - 1), go_byte(bs[n - 1]));
    }
}

/// Each line of a generated Go string constant after the first starts with four spaces
/// and a `"`, where the constant's name holds no newline.
pub proof fn lemma_go_string_lines(bs: Seq<u8>, name: Seq<char>)
    requires
        !name.contains('\n'),
    ensures
        lines_continue_literal(go_string_const(bs, name)),
{
    reveal_strlit("const ");
    reveal_strlit(" = \"\" +\n    \"");
    reveal_strlit("\"");
    reveal_strlit("    \"");
    let head = "const "@ + name;
    assert forall|i: int| 0 <= i < head.len() implies #[trigger] head[i] != '\n' by {
        if i >= 6 {
            assert(head[i] == name[i - 6]);
        }
    }
    let mid = " = \"\" +\n    \""@;
    assert forall|i: int| 0 <= i < mid.len() && #[trigger] mid[i] == '\n' implies i + 5 < mid.len()
        && mid.subrange(i + 1, i + 6) == "    \""@ by {
        assert(i == 7);
        assert(mid.subrange(8, 13) =~= "    \""@);
    }
    lemma_go_bytes_lines(bs, bs.len() as int);
    lemma_lines_concat(head, mid);
    lemma_lines_concat(head + mid, go_bytes(bs, bs.len() as int));
    lemma_lines_concat(head + mid + go_bytes(bs, bs.len() as int), "\""@);
    assert(go_string_const(bs, name) =~= head + mid + go_bytes(bs, bs.len() as int) + "\""@);
}

} // verus!
