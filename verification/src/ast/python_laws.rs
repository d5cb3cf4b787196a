//! Properties of the Python type annotations.
use crate::ast::compile_python::{
    py_comments,
    py_enum,
    py_enum_field,
    py_enum_values,
    py_enums,
    py_message,
    py_message_parts,
    py_messages,
    py_member_code,
    py_member_type,
    py_module,
    py_oneliner,
    py_oneof,
    py_oneof_parts,
    py_field,
    py_type,
    without_quotes,
};
use crate::ast::go_laws::{holds_text, lemma_holds_text_after, lemma_holds_text_end, lemma_holds_text_extend};
use crate::ast::field::FieldView;
use crate::ast::message::{MessageView, MessagesView};
use crate::ast::penum::PEnumView;
use crate::ast::penum_field::PEnumFieldView;
use crate::text::decimal;
use crate::ast::ptype::{PTypeView, repeatable, repeated_of};
use vstd::prelude::*;
use vstd::seq_lib::lemma_concat_associative;

verus! {

/// The annotation of a repeated type is `List[` and the annotation of its element type
/// and `]`, and both carry the same `betterproto2` type name.
pub proof fn lemma_py_repeated_annotation(t: PTypeView)
    requires
        repeatable(t),
    ensures
        py_type(repeated_of(t)).0 == "List["@ + py_type(t).0 + "]"@,
        py_type(repeated_of(t)).1 == py_type(t).1,
{
    match t {
        PTypeView::Int32 => {
            reveal_strlit("List[int]");
            reveal_strlit("List[");
            reveal_strlit("int");
            reveal_strlit("]");
            assert("List[int]"@ =~= "List["@ + "int"@ + "]"@);
        },
        PTypeView::PString => {
            reveal_strlit("List[str]");
            reveal_strlit("List[");
            reveal_strlit("str");
            reveal_strlit("]");
            assert("List[str]"@ =~= "List["@ + "str"@ + "]"@);
        },
        PTypeView::Custom(n) => {
            reveal_strlit("List[\"");
            reveal_strlit("\"]");
            reveal_strlit("List[");
            reveal_strlit("\"");
            reveal_strlit("]");
            assert("List[\""@ + n + "\"]"@ =~= "List["@ + ("\""@ + n + "\""@) + "]"@);
        },
        _ => {},
    }
}

/// The annotation agrees with the `betterproto2` type name: `TYPE_INT32` goes with `int`
/// and `TYPE_STRING` with `str`, alone or in a list, and `TYPE_MESSAGE` with a quoted
/// name, alone or in a list.
pub proof fn lemma_py_annotation_matches_type(t: PTypeView)
    ensures
        py_type(t).1 == "TYPE_INT32"@ ==> py_type(t).0 == "int"@ || py_type(t).0 == "List[int]"@,
        py_type(t).1 == "TYPE_STRING"@ ==> py_type(t).0 == "str"@ || py_type(t).0 == "List[str]"@,
        py_type(t).1 == "TYPE_MESSAGE"@ ==> exists|n: Seq<char>|
            py_type(t).0 == "\""@ + n + "\""@ || py_type(t).0 == "List[\""@ + n + "\"]"@,
{
    reveal_strlit("TYPE_INT32");
    reveal_strlit("TYPE_STRING");
    reveal_strlit("TYPE_MESSAGE");
    reveal_strlit("TYPE_ONEOF");
    assert("TYPE_MESSAGE"@[5] != "TYPE_INT32"@[5]);
    assert("TYPE_MESSAGE"@[5] != "TYPE_STRING"@[5]);
    assert("TYPE_ONEOF"@[5] != "TYPE_INT32"@[5]);
    assert("TYPE_ONEOF"@[5] != "TYPE_STRING"@[5]);
    assert("TYPE_ONEOF"@[5] != "TYPE_MESSAGE"@[5]);
    assert("TYPE_INT32"@[5] != "TYPE_STRING"@[5]);
    match t {
        PTypeView::Custom(n) => {
            assert(py_type(t).0 == "\""@ + n + "\""@);
        },
        PTypeView::RepeatedCustom(n) => {
            assert(py_type(t).0 == "List[\""@ + n + "\"]"@);
        },
        _ => {},
    }
}

/// The line of the Python enum class for the value `f`: its name and its index.
pub open spec fn enum_value_line(f: PEnumFieldView) -> Seq<char> {
    "    "@ + f.name + " = "@ + decimal(f.index as nat) + "\n"@
}

proof fn lemma_enum_value_lines(fs: Seq<PEnumFieldView>, n: int)
    requires
        0 <= n <= fs.len(),
    ensures
        forall|j: int| 0 <= j < n ==> holds_text(py_enum_values(fs, n), #[trigger] enum_value_line(fs[j])),
    decreases n,
{
    if n > 0 {
        lemma_enum_value_lines(fs, n - 1);
        let prev = py_enum_values(fs, n - 1);
        let f = fs[n - 1];
        let line = enum_value_line(f);
        let cs = py_comments(f.comments);
        assert(py_enum_values(fs, n) =~= prev + line + cs);
        lemma_holds_text_end(prev, line);
        lemma_holds_text_extend(prev + line, cs, line);
        assert forall|j: int| 0 <= j < n implies holds_text(py_enum_values(fs, n), #[trigger] enum_value_line(fs[j])) by {
            if j < n - 1 {
                lemma_holds_text_extend(prev, "    "@, enum_value_line(fs[j]));
                lemma_holds_text_extend(prev + "    "@, py_enum_field(f), enum_value_line(fs[j]));
            }
        }
    }
}

/// In the Python module of a schema, the code of the `k`-th enum follows the code of the
/// enums before it, starts with the class `class <name>(betterproto2.Enum):` and holds,
/// for each of the enum's values, the line `<value> = <index>`.
pub proof fn lemma_py_enum_class(es: Seq<PEnumView>, k: int)
    requires
        0 <= k < es.len(),
    ensures
        ({
            let before = py_enums(es, k);
            let after = py_enums(es, k + 1);
            let own = after.skip(before.len() as int);
            let head = "class "@ + es[k].name + "(betterproto2.Enum):\n"@;
            &&& before.len() <= after.len()
            &&& after.take(before.len() as int) == before
            &&& head.len() <= own.len() && own.take(head.len() as int) == head
            &&& forall|j: int|
                0 <= j < es[k].fields.len() ==> holds_text(own, #[trigger] enum_value_line(es[k].fields[j]))
        }),
{
    let e = es[k];
    let before = py_enums(es, k);
    let after = py_enums(es, k + 1);
    let own = py_enum(e) + "\n"@;
    assert(after == before + py_enum(e) + "\n"@);
    assert(after.skip(before.len() as int) =~= own);
    assert(after.take(before.len() as int) =~= before);
    let head = "class "@ + e.name + "(betterproto2.Enum):\n"@;
    let vals = py_enum_values(e.fields, e.fields.len() as int);
    let x = head + py_comments(e.comments);
    assert(own == x + vals + "\n"@ + "\n"@);
    assert(own.take(head.len() as int) =~= head);
    lemma_enum_value_lines(e.fields, e.fields.len() as int);
    assert forall|j: int| 0 <= j < e.fields.len() implies holds_text(own, #[trigger] enum_value_line(e.fields[j])) by {
        lemma_holds_text_after(x, vals, enum_value_line(e.fields[j]));
        lemma_holds_text_extend(x + vals, "\n"@, enum_value_line(e.fields[j]));
        lemma_holds_text_extend(x + vals + "\n"@, "\n"@, enum_value_line(e.fields[j]));
    }
}

/// Whether `t` starts with `p`.
pub open spec fn starts_with(t: Seq<char>, p: Seq<char>) -> bool {
    p.len() <= t.len() && t.take(p.len() as int) == p
}

proof fn lemma_starts_with_extend(p: Seq<char>, x: Seq<char>, y: Seq<char>)
    requires
        p == x || starts_with(x, p),
    ensures
        starts_with(x + y, p),
{
    assert((x + y).take(p.len() as int) =~= x.take(p.len() as int));
    assert(x.take(x.len() as int) =~= x);
}

/// How the message `name` is registered in the message pool.
pub open spec fn registration(name: Seq<char>) -> Seq<char> {
    "default_message_pool.register_message(\"\", \""@ + name + "\", "@ + name + ")\n\n"@
}

/// The head of the Python dataclass of the message `name`.
pub open spec fn message_class_head(name: Seq<char>) -> Seq<char> {
    "@dataclass(\n    kw_only=True,\n    init=False,\n    eq=False,\n    repr=False,\n)\nclass "@ + name
        + "(betterproto2.Message):\n"@
}

/// In the Python module of a schema, the code of the `k`-th message follows the code of
/// the messages before it, starts with the dataclass `class <name>(betterproto2.Message):`
/// and ends with the registration of `<name>` in the message pool.
pub proof fn lemma_py_message_class(ms: Seq<MessageView>, k: int)
    requires
        0 <= k < ms.len(),
    ensures
        ({
            let before = py_messages(ms, k);
            let after = py_messages(ms, k + 1);
            let own = after.skip(before.len() as int);
            let head = message_class_head(ms[k].name);
            let reg = registration(ms[k].name);
            &&& before.len() <= after.len()
            &&& after.take(before.len() as int) == before
            &&& starts_with(own, head)
            &&& reg.len() <= own.len() && own.skip(own.len() - reg.len()) == reg
        }),
{
    let m = ms[k];
    let before = py_messages(ms, k);
    let after = py_messages(ms, k + 1);
    let body = py_message(m) + "\n"@;
    let reg = registration(m.name);
    let r1 = "default_message_pool.register_message(\"\", \""@;
    let r2 = r1 + m.name;
    let r3 = r2 + "\", "@;
    let r4 = r3 + m.name;
    lemma_concat_associative(body, r1, m.name);
    lemma_concat_associative(body, r2, "\", "@);
    lemma_concat_associative(body, r3, m.name);
    lemma_concat_associative(body, r4, ")\n\n"@);
    let own = body + reg;
    assert(after == before + own) by {
        lemma_concat_associative(before, body, reg);
    }
    assert(after.skip(before.len() as int) =~= own);
    assert(after.take(before.len() as int) =~= before);
    assert(own.skip(own.len() - reg.len()) =~= reg);
    let head = message_class_head(m.name);
    let q = py_message_parts(m.fields, m.fields.len() as int);
    let t1 = head + py_comments(m.comments);
    let t2 = t1 + q.code;
    let t3 = t2 + "\n    def __init__(\n        self,\n        *,\n"@;
    let t4 = t3 + q.init;
    let t5 = t4 + q.default_init;
    let t6 = t5 + "    ):\n        \"\"\"\n"@;
    let t7 = t6 + q.comment;
    let t8 = t7 + q.default_comment;
    let t9 = t8 + "        \"\"\"\n"@;
    let t10 = t9 + q.assignment;
    let t11 = t10 + "\n        self._unknown_fields = b\"\"\n        "@;
    assert(py_message(m) == t11);
    lemma_starts_with_extend(head, head, py_comments(m.comments));
    lemma_starts_with_extend(head, t1, q.code);
    lemma_starts_with_extend(head, t2, "\n    def __init__(\n        self,\n        *,\n"@);
    lemma_starts_with_extend(head, t3, q.init);
    lemma_starts_with_extend(head, t4, q.default_init);
    lemma_starts_with_extend(head, t5, "    ):\n        \"\"\"\n"@);
    lemma_starts_with_extend(head, t6, q.comment);
    lemma_starts_with_extend(head, t7, q.default_comment);
    lemma_starts_with_extend(head, t8, "        \"\"\"\n"@);
    lemma_starts_with_extend(head, t9, q.assignment);
    lemma_starts_with_extend(head, t10, "\n        self._unknown_fields = b\"\"\n        "@);
    lemma_starts_with_extend(head, t11, "\n"@);
    lemma_starts_with_extend(head, body, reg);
}

/// The Python module of a schema is the code of its enums followed by that of its
/// messages.
pub proof fn lemma_py_module_order(s: MessagesView)
    ensures
        py_module(s).take(py_enums(s.penums, s.penums.len() as int).len() as int) == py_enums(
            s.penums,
            s.penums.len() as int,
        ),
        py_module(s).skip(py_enums(s.penums, s.penums.len() as int).len() as int) == py_messages(
            s.messages,
            s.messages.len() as int,
        ),
{
    let a = py_enums(s.penums, s.penums.len() as int);
    let b = py_messages(s.messages, s.messages.len() as int);
    assert((a + b).take(a.len() as int) =~= a);
    assert((a + b).skip(a.len() as int) =~= b);
}

/// Removing the double quotes of a text keeps its other characters, in order.
pub proof fn lemma_without_quotes_filters(s: Seq<char>)
    ensures
        without_quotes(s) == s.filter(|c: char| c != '"'),
    decreases s.len(),
{
    reveal(Seq::filter);
    if s.len() > 0 {
        lemma_without_quotes_filters(s.drop_last());
    }
}

/// A boolean as Python writes it.
pub open spec fn python_bool(b: bool) -> Seq<char> {
    if b {
        "True"@
    } else {
        "False"@
    }
}

/// The annotation of a plain field: its type's annotation, inside `Optional[...]` when the
/// field has a default.
pub open spec fn field_annotation(f: FieldView) -> Seq<char> {
    if f.default is Some {
        "Optional["@ + py_type(f.ptype).0 + "]"@
    } else {
        py_type(f.ptype).0
    }
}

/// The class attribute of a plain field declares the field by name with its annotation
/// and hands `betterproto2` its index, its type name, and whether it is repeated and
/// optional (that is, has a default) as Python booleans, followed by its docstring; its
/// `__init__` parameter is the name with the annotation, and its description the comments
/// on one line.
pub proof fn lemma_py_plain_field(f: FieldView)
    requires
        !(f.ptype is Oneof),
    ensures
        py_field(f).0 == f.name + ": "@ + field_annotation(f) + " = betterproto2.field("@ + decimal(
            f.index as nat,
        ) + ", betterproto2."@ + py_type(f.ptype).1 + ", repeated="@ + python_bool(f.repeated)
            + ", optional="@ + python_bool(f.default is Some) + ")"@ + "\n"@ + py_comments(f.comments),
        py_field(f).1 == f.name + ": "@ + field_annotation(f),
        py_field(f).2 == py_oneliner(f.comments),
{
}

/// The class attribute of the alternative `m` of the group `g`: its name, its annotation
/// without quotes and allowing `None`, its index and type name, optional, in group `g`.
pub open spec fn member_attribute(g: FieldView, m: FieldView) -> Seq<char> {
    m.name + ": \""@ + without_quotes(py_member_type(m)) + " | None\"= betterproto2.field("@
        + decimal(m.index as nat) + ", betterproto2."@ + py_type(m.ptype).1
        + ", optional=True, group=\""@ + g.name + "\")"@
}

proof fn lemma_oneof_attributes(g: FieldView, ms: Seq<FieldView>, n: int)
    requires
        0 <= n <= ms.len(),
    ensures
        forall|j: int| 0 <= j < n ==> holds_text(py_oneof_parts(g, ms, n).0, #[trigger] member_attribute(g, ms[j])),
    decreases n,
{
    if n > 0 {
        lemma_oneof_attributes(g, ms, n - 1);
        let prev = py_oneof_parts(g, ms, n - 1).0;
        let mc = py_member_code(g, ms[n - 1]);
        let a = member_attribute(g, ms[n - 1]);
        assert(mc == a + "\n    "@ + py_comments(g.comments));
        lemma_holds_text_end(prev, a);
        lemma_holds_text_extend(prev + a, "\n    "@, a);
        lemma_holds_text_extend(prev + a + "\n    "@, py_comments(g.comments), a);
        lemma_concat_associative(prev, a + "\n"@ + "    "@, py_comments(g.comments));
        assert(prev + mc =~= prev + a + "\n    "@ + py_comments(g.comments));
        assert forall|j: int| 0 <= j < n implies holds_text(py_oneof_parts(g, ms, n).0, #[trigger] member_attribute(g, ms[j])) by {
            if j < n - 1 {
                lemma_holds_text_extend(prev, mc, member_attribute(g, ms[j]));
            }
        }
    }
}

/// The Python code of a `oneof` group declares each of its alternatives: by name, with
/// its annotation without quotes and allowing `None`, its index and type name, optional,
/// in the group.
pub proof fn lemma_py_oneof_members(g: FieldView)
    requires
        g.maybe_types is Some,
    ensures
        forall|j: int|
            0 <= j < g.maybe_types->0.len() ==> holds_text(
                py_oneof(g).0,
                #[trigger] member_attribute(g, g.maybe_types->0[j]),
            ),
{
    let ms = g.maybe_types->0;
    lemma_oneof_attributes(g, ms, ms.len() as int);
}

proof fn lemma_message_parts_code(fs: Seq<FieldView>, n: int)
    requires
        0 <= n <= fs.len(),
    ensures
        forall|j: int|
            0 <= j < n ==> holds_text(py_message_parts(fs, n).code, "    "@ + (#[trigger] py_field(fs[j])).0),
    decreases n,
{
    if n > 0 {
        lemma_message_parts_code(fs, n - 1);
        let prev = py_message_parts(fs, n - 1).code;
        let line = "    "@ + py_field(fs[n - 1]).0;
        assert(py_message_parts(fs, n).code == prev + "    "@ + py_field(fs[n - 1]).0);
        lemma_concat_associative(prev, "    "@, py_field(fs[n - 1]).0);
        lemma_holds_text_end(prev, line);
        assert forall|j: int|
            0 <= j < n implies holds_text(py_message_parts(fs, n).code, "    "@ + (#[trigger] py_field(fs[j])).0) by {
            if j < n - 1 {
                lemma_holds_text_extend(prev, line, "    "@ + py_field(fs[j]).0);
            }
        }
    }
}

/// The Python dataclass of a message holds, for each of its fields, the field's class
/// code (for a plain field its attribute, for a `oneof` group those of its
/// alternatives), indented.
pub proof fn lemma_py_message_fields(m: MessageView)
    ensures
        forall|j: int|
            0 <= j < m.fields.len() ==> holds_text(py_message(m), "    "@ + (#[trigger] py_field(m.fields[j])).0),
{
    let q = py_message_parts(m.fields, m.fields.len() as int);
    let head = message_class_head(m.name);
    let t1 = head + py_comments(m.comments);
    let t2 = t1 + q.code;
    let t3 = t2 + "\n    def __init__(\n        self,\n        *,\n"@;
    let t4 = t3 + q.init;
    let t5 = t4 + q.default_init;
    let t6 = t5 + "    ):\n        \"\"\"\n"@;
    let t7 = t6 + q.comment;
    let t8 = t7 + q.default_comment;
    let t9 = t8 + "        \"\"\"\n"@;
    let t10 = t9 + q.assignment;
    let t11 = t10 + "\n        self._unknown_fields = b\"\"\n        "@;
    assert(py_message(m) == t11);
    lemma_message_parts_code(m.fields, m.fields.len() as int);
    assert forall|j: int|
        0 <= j < m.fields.len() implies holds_text(py_message(m), "    "@ + (#[trigger] py_field(m.fields[j])).0) by {
        let p = "    "@ + py_field(m.fields[j]).0;
        lemma_holds_text_after(t1, q.code, p);
        lemma_holds_text_extend(t2, "\n    def __init__(\n        self,\n        *,\n"@, p);
        lemma_holds_text_extend(t3, q.init, p);
        lemma_holds_text_extend(t4, q.default_init, p);
        lemma_holds_text_extend(t5, "    ):\n        \"\"\"\n"@, p);
        lemma_holds_text_extend(t6, q.comment, p);
        lemma_holds_text_extend(t7, q.default_comment, p);
        lemma_holds_text_extend(t8, "        \"\"\"\n"@, p);
        lemma_holds_text_extend(t9, q.assignment, p);
        lemma_holds_text_extend(t10, "\n        self._unknown_fields = b\"\"\n        "@, p);
    }
}

} // verus!
