//! The Python code generator.
use crate::ast::comments::Comments;
use crate::ast::field::{Field, FieldView, fields_view};
use crate::ast::message::{Message, MessageView, Messages, MessagesView};
use crate::ast::penum::{PEnum, PEnumView};
use crate::ast::penum_field::{PEnumField, PEnumFieldView};
use crate::ast::ptype::{PType, PTypeView, python_default};
use crate::text::{bool_text, decimal, push_char, usize_text};
use crate::util::{capitalize_first, is_ascii};
use vstd::prelude::*;

verus! {

/// The Python type annotation of a field of type `t`, and the name of its `betterproto2`
/// field type.
pub open spec fn py_type(t: PTypeView) -> (Seq<char>, Seq<char>) {
    match t {
        PTypeView::Int32 => ("int"@, "TYPE_INT32"@),
        PTypeView::RepeatedInt32 => ("List[int]"@, "TYPE_INT32"@),
        PTypeView::PString => ("str"@, "TYPE_STRING"@),
        PTypeView::RepeatedPString => ("List[str]"@, "TYPE_STRING"@),
        PTypeView::Custom(n) => ("\""@ + n + "\""@, "TYPE_MESSAGE"@),
        PTypeView::RepeatedCustom(n) => ("List[\""@ + n + "\"]"@, "TYPE_MESSAGE"@),
        PTypeView::Oneof => ("oneof"@, "TYPE_ONEOF"@),
    }
}

/// The lines of a docstring body for the first `n` comments.
pub open spec fn py_comment_lines(cs: Seq<Seq<char>>, n: int) -> Seq<char>
    decreases n,
{
    if n <= 0 {
        seq![]
    } else {
        py_comment_lines(cs, n - 1) + "    "@ + cs[n - 1] + "\n"@
    }
}

/// Comments as a Python docstring; nothing when there are none.
pub open spec fn py_comments(cs: Seq<Seq<char>>) -> Seq<char> {
    if cs.len() == 0 {
        seq![]
    } else {
        "    \"\"\"\n"@ + py_comment_lines(cs, cs.len() as int) + "    \"\"\"\n\n"@
    }
}

/// The first `n` comments on one line, each followed by a space.
pub open spec fn py_oneliner_prefix(cs: Seq<Seq<char>>, n: int) -> Seq<char>
    decreases n,
{
    if n <= 0 {
        seq![]
    } else {
        py_oneliner_prefix(cs, n - 1) + cs[n - 1] + " "@
    }
}

/// Comments on one line, each followed by a space; `-` when there are none.
pub open spec fn py_oneliner(cs: Seq<Seq<char>>) -> Seq<char> {
    if cs.len() == 0 {
        "-"@
    } else {
        py_oneliner_prefix(cs, cs.len() as int)
    }
}

/// An enum value as a line of a Python enum class, followed by its docstring.
pub open spec fn py_enum_field(f: PEnumFieldView) -> Seq<char> {
    f.name + " = "@ + decimal(f.index as nat) + "\n"@ + py_comments(f.comments)
}

/// `s` without its double quotes.
pub open spec fn without_quotes(s: Seq<char>) -> Seq<char>
    decreases s.len(),
{
    if s.len() == 0 {
        seq![]
    } else if s.last() == '"' {
        without_quotes(s.drop_last())
    } else {
        without_quotes(s.drop_last()).push(s.last())
    }
}

/// `s` without its last character, if it has one (`String::pop`).
pub open spec fn popped(s: Seq<char>) -> Seq<char> {
    if s.len() > 0 {
        s.drop_last()
    } else {
        s
    }
}

/// The Python annotation of an alternative of a `oneof` group.
pub open spec fn py_member_type(m: FieldView) -> Seq<char> {
    if m.default is Some {
        "Optional["@ + py_type(m.ptype).0 + "]"@
    } else {
        py_type(m.ptype).0
    }
}

/// The class attribute for the alternative `m` of the group `g`.
pub open spec fn py_member_code(g: FieldView, m: FieldView) -> Seq<char> {
    m.name + ": \""@ + without_quotes(py_member_type(m)) + " | None\"= betterproto2.field("@
        + decimal(m.index as nat) + ", betterproto2."@ + py_type(m.ptype).1
        + ", optional=True, group=\""@ + g.name + "\")"@ + "\n    "@ + py_comments(g.comments)
}

/// The keyword parameter of `__init__` for the alternative `m`.
pub open spec fn py_member_param(m: FieldView) -> Seq<char> {
    "\n        "@ + m.name + ": \""@ + without_quotes(py_member_type(m)) + " | None\" = None,"@
}

/// The class attributes and the `__init__` parameters for the first `n` alternatives of
/// the group `g`.
pub open spec fn py_oneof_parts(g: FieldView, ms: Seq<FieldView>, n: int) -> (Seq<char>, Seq<char>)
    decreases n,
{
    if n <= 0 {
        (seq![], seq![])
    } else {
        let (code, params) = py_oneof_parts(g, ms, n - 1);
        (code + py_member_code(g, ms[n - 1]), params + py_member_param(ms[n - 1]))
    }
}

/// A boolean as Python writes it.
pub open spec fn py_bool(b: bool) -> Seq<char> {
    if b {
        "True"@
    } else {
        "False"@
    }
}

/// `b` as Python writes it: the text of `b` with its first letter uppercased.
fn py_bool_text(b: bool) -> (r: String)
    ensures
        r@ == py_bool(b),
{
    let text = bool_text(b);
    proof {
        reveal_strlit("true");
        reveal_strlit("false");
        reveal_strlit("True");
        reveal_strlit("False");
        assert(is_ascii(text@[0]));
    }
    let r = capitalize_first(text.as_str());
    assert(r@ =~= py_bool(b));
    r
}

/// The Python code of the field `g` from its alternatives: the class attributes and the
/// `__init__` parameters of all of them, the parameters without the last comma, and its
/// one-line description.
pub open spec fn py_oneof(g: FieldView) -> (Seq<char>, Seq<char>, Seq<char>) {
    let ms = g.maybe_types->0;
    let (code, params) = py_oneof_parts(g, ms, ms.len() as int);
    (code, popped(params), py_oneliner(g.comments))
}

/// The Python code of a field: its class attribute, its `__init__` parameter and its
/// one-line description; for a `oneof` group, the code from its alternatives.
pub open spec fn py_field(f: FieldView) -> (Seq<char>, Seq<char>, Seq<char>) {
    if f.ptype is Oneof {
        py_oneof(f)
    } else {
        let ty = if f.default is Some {
            "Optional["@ + py_type(f.ptype).0 + "]"@
        } else {
            py_type(f.ptype).0
        };
        (
            f.name + ": "@ + ty + " = betterproto2.field("@ + decimal(f.index as nat)
                + ", betterproto2."@ + py_type(f.ptype).1 + ", repeated="@ + py_bool(f.repeated) + ", optional="@
                + py_bool(f.default is Some) + ")"@ + "\n"@
                + py_comments(f.comments),
            f.name + ": "@ + ty,
            py_oneliner(f.comments),
        )
    }
}

/// Whether a field can be compiled: a `oneof` group holds its alternatives.
pub open spec fn field_compilable(f: FieldView) -> bool {
    f.ptype is Oneof ==> f.maybe_types is Some
}

/// The Python enum class of an enum: its values, one per indented line.
pub open spec fn py_enum_values(fs: Seq<PEnumFieldView>, n: int) -> Seq<char>
    decreases n,
{
    if n <= 0 {
        seq![]
    } else {
        py_enum_values(fs, n - 1) + "    "@ + py_enum_field(fs[n - 1])
    }
}

/// The Python enum class of an enum.
pub open spec fn py_enum(e: PEnumView) -> Seq<char> {
    "class "@ + e.name + "(betterproto2.Enum):\n"@ + py_comments(e.comments) + py_enum_values(
        e.fields,
        e.fields.len() as int,
    ) + "\n"@
}

/// The pieces a message class is made of, for its first `n` fields: the class attributes,
/// the `__init__` parameters without and with defaults with their `:param` lines, and the
/// assignments in `__init__`.
pub struct PyMessageParts {
    pub code: Seq<char>,
    pub init: Seq<char>,
    pub comment: Seq<char>,
    pub default_init: Seq<char>,
    pub default_comment: Seq<char>,
    pub assignment: Seq<char>,
}

/// The assignments in `__init__` of the first `n` alternatives of a `oneof` group.
pub open spec fn py_member_assignments(ms: Seq<FieldView>, n: int) -> Seq<char>
    decreases n,
{
    if n <= 0 {
        seq![]
    } else {
        py_member_assignments(ms, n - 1) + "        self."@ + ms[n - 1].name + " = "@ + ms[n
            - 1].name + "\n"@
    }
}

/// The default value written for a field with a default: the Python default of its type
/// when the default is the placeholder `PLACEHOLDER`.
pub open spec fn py_default_value(f: FieldView) -> Seq<char> {
    if f.default->0 == "PLACEHOLDER"@ {
        python_default(f.ptype)
    } else {
        f.default->0
    }
}

pub open spec fn py_message_parts(fs: Seq<FieldView>, n: int) -> PyMessageParts
    decreases n,
{
    if n <= 0 {
        PyMessageParts {
            code: seq![],
            init: seq![],
            comment: seq![],
            default_init: seq![],
            default_comment: seq![],
            assignment: seq![],
        }
    } else {
        let p = py_message_parts(fs, n - 1);
        let f = fs[n - 1];
        let (preinit, init, comment) = py_field(f);
        if f.maybe_types is None {
            let assignment = p.assignment + "        self."@ + f.name + " = "@ + f.name + "\n"@;
            let code = p.code + "    "@ + preinit;
            if f.default is Some {
                PyMessageParts {
                    code,
                    default_init: p.default_init + "        "@ + init + " = "@ + py_default_value(
                        f,
                    ) + ", \n"@,
                    default_comment: p.default_comment + "        :param "@ + f.name + ": "@
                        + comment + " \n"@,
                    assignment,
                    ..p
                }
            } else {
                PyMessageParts {
                    code,
                    init: p.init + "        "@ + init + ", \n"@,
                    comment: p.comment + "        :param "@ + f.name + ": "@ + comment + " \n"@,
                    assignment,
                    ..p
                }
            }
        } else {
            let ms = f.maybe_types->0;
            PyMessageParts {
                code: p.code + "    "@ + preinit,
                default_init: p.default_init + "        "@ + init + ", \n"@,
                assignment: p.assignment + py_member_assignments(ms, ms.len() as int),
                ..p
            }
        }
    }
}

/// The Python dataclass of a message.
pub open spec fn py_message(m: MessageView) -> Seq<char> {
    let p = py_message_parts(m.fields, m.fields.len() as int);
    "@dataclass(\n    kw_only=True,\n    init=False,\n    eq=False,\n    repr=False,\n)\nclass "@
        + m.name + "(betterproto2.Message):\n"@ + py_comments(m.comments) + p.code
        + "\n    def __init__(\n        self,\n        *,\n"@ + p.init + p.default_init
        + "    ):\n        \"\"\"\n"@ + p.comment + p.default_comment + "        \"\"\"\n"@
        + p.assignment + "\n        self._unknown_fields = b\"\"\n        "@
}

/// Whether every field of a message can be compiled.
pub open spec fn message_compilable(m: MessageView) -> bool {
    forall|i: int| 0 <= i < m.fields.len() ==> field_compilable(#[trigger] m.fields[i])
}

/// The Python code of the first `n` enums.
pub open spec fn py_enums(es: Seq<PEnumView>, n: int) -> Seq<char>
    decreases n,
{
    if n <= 0 {
        seq![]
    } else {
        py_enums(es, n - 1) + py_enum(es[n - 1]) + "\n"@
    }
}

/// The Python code of the first `n` messages, each registered in the message pool.
pub open spec fn py_messages(ms: Seq<MessageView>, n: int) -> Seq<char>
    decreases n,
{
    if n <= 0 {
        seq![]
    } else {
        py_messages(ms, n - 1) + py_message(ms[n - 1]) + "\n"@
            + "default_message_pool.register_message(\"\", \""@ + ms[n - 1].name + "\", "@
            + ms[n - 1].name + ")\n\n"@
    }
}

/// The Python module of a schema: its enums, then its messages.
pub open spec fn py_module(s: MessagesView) -> Seq<char> {
    py_enums(s.penums, s.penums.len() as int) + py_messages(s.messages, s.messages.len() as int)
}

/// Calls `String::pop`, which removes the last character of `s` if it has one. Claimed:
/// `s` loses exactly that character, and an empty `s` stays empty.
#[verifier::external_body]
fn pop_char(s: &mut String)
    ensures
        final(s)@ == popped(old(s)@),
{
    s.pop();
}

/// `s` without its double quotes.
fn remove_quotes(s: &String) -> (r: String)
    ensures
        r@ == without_quotes(s@),
{
    let chars = crate::text::chars_of(s.as_str());
    let mut r = String::new();
    let mut i: usize = 0;
    while i < chars.len()
        invariant
            chars@ == s@,
            i <= chars.len(),
            r@ == without_quotes(s@.take(i as int)),
        decreases chars.len() - i,
    {
        assert(s@.take(i + 1).drop_last() =~= s@.take(i as int));
        if chars[i] != '"' {
            push_char(&mut r, chars[i]);
        }
        i = i + 1;
    }
    assert(s@.take(i as int) =~= s@);
    r
}

impl PType {
    /// The Python type annotation of a field of this type, and the name of its
    /// `betterproto2` field type.
    pub fn compile_python(&self) -> (r: (String, String))
        ensures
            (r.0@, r.1@) == py_type(self@),
    {
        match self {
            PType::Int32 => (String::from_str("int"), String::from_str("TYPE_INT32")),
            PType::RepeatedInt32 => (String::from_str("List[int]"), String::from_str("TYPE_INT32")),
            PType::PString => (String::from_str("str"), String::from_str("TYPE_STRING")),
            PType::RepeatedPString => (
                String::from_str("List[str]"),
                String::from_str("TYPE_STRING"),
            ),
            PType::Custom(n) => {
                let mut t = String::from_str("\"");
                t.append(n.as_str());
                t.append("\"");
                (t, String::from_str("TYPE_MESSAGE"))
            },
            PType::RepeatedCustom(n) => {
                let mut t = String::from_str("List[\"");
                t.append(n.as_str());
                t.append("\"]");
                (t, String::from_str("TYPE_MESSAGE"))
            },
            PType::Oneof => (String::from_str("oneof"), String::from_str("TYPE_ONEOF")),
        }
    }

    /// The Python default value of a field of this type.
    pub fn default_python(&self) -> (r: String)
        ensures
            r@ == python_default(self@),
    {
        match self {
            PType::Int32 => String::from_str("0"),
            PType::RepeatedInt32 => String::from_str("None"),
            PType::PString => String::from_str("None"),
            PType::RepeatedPString => String::from_str("None"),
            PType::Custom(_) => String::from_str("None"),
            PType::RepeatedCustom(_) => String::from_str("None"),
            PType::Oneof => String::from_str("None"),
        }
    }
}

impl Comments {
    /// These comments as a Python docstring; nothing when there are none.
    pub fn compile_python(&self) -> (out: String)
        ensures
            out@ == py_comments(self@),
    {
        let mut out = String::new();
        if self.comments.len() == 0 {
            return out;
        }
        out.append("    \"\"\"\n");
        let mut lines = String::new();
        let mut i: usize = 0;
        while i < self.comments.len()
            invariant
                i <= self.comments.len(),
                lines@ == py_comment_lines(self@, i as int),
            decreases self.comments.len() - i,
        {
            lines.append("    ");
            lines.append(self.comments[i].as_str());
            lines.append("\n");
            i = i + 1;
        }
        out.append(lines.as_str());
        out.append("    \"\"\"\n\n");
        assert(out@ =~= py_comments(self@));
        out
    }

    /// These comments on one line, each followed by a space; `-` when there are none.
    pub fn oneliner_python(&self) -> (out: String)
        ensures
            out@ == py_oneliner(self@),
    {
        let mut out = String::new();
        if self.comments.len() == 0 {
            return String::from_str("-");
        }
        let mut i: usize = 0;
        while i < self.comments.len()
            invariant
                i <= self.comments.len(),
                out@ == py_oneliner_prefix(self@, i as int),
            decreases self.comments.len() - i,
        {
            out.append(self.comments[i].as_str());
            out.append(" ");
            i = i + 1;
        }
        out
    }
}

impl PEnumField {
    /// This value as a line of a Python enum class, followed by its docstring.
    pub fn compile_python(&self) -> (r: String)
        ensures
            r@ == py_enum_field(self@),
    {
        let mut r = self.name.clone();
        r.append(" = ");
        r.append(usize_text(self.index).as_str());
        r.append("\n");
        r.append(self.comments.compile_python().as_str());
        r
    }
}

impl Field {
    fn compile_oneof(&self) -> (r: (String, String, String))
        requires
            self.maybe_types is Some,
        ensures
            (r.0@, r.1@, r.2@) == py_oneof(self@),
    {
        let types = self.maybe_types.as_ref().unwrap();
        let ghost ms = self@.maybe_types->0;
        assert(ms.len() == types.len());
        let mut field_code = String::new();
        let mut parameters = String::new();
        let mut i: usize = 0;
        while i < types.len()
            invariant
                self.maybe_types == Some(*types),
                ms == self@.maybe_types->0,
                ms.len() == types.len(),
                i <= types.len(),
                (field_code@, parameters@) == py_oneof_parts(self@, ms, i as int),
            decreases types.len() - i,
        {
            let field = &types[i];
            assert(ms[i as int] == field@);
            let (mut py_type, act_type) = field.ptype.compile_python();
            if field.default.is_some() {
                let mut t = String::from_str("Optional[");
                t.append(py_type.as_str());
                t.append("]");
                py_type = t;
            }
            let bare = remove_quotes(&py_type);
            field_code.append(field.name.as_str());
            field_code.append(": \"");
            field_code.append(bare.as_str());
            field_code.append(" | None\"= betterproto2.field(");
            field_code.append(usize_text(field.index).as_str());
            field_code.append(", betterproto2.");
            field_code.append(act_type.as_str());
            field_code.append(", optional=True, group=\"");
            field_code.append(self.name.as_str());
            field_code.append("\")");
            field_code.append("\n    ");
            field_code.append(self.comments.compile_python().as_str());
            parameters.append("\n        ");
            parameters.append(field.name.as_str());
            parameters.append(": \"");
            parameters.append(bare.as_str());
            parameters.append(" | None\" = None,");
            i = i + 1;
        }
        pop_char(&mut parameters);
        (field_code, parameters, self.comments.oneliner_python())
    }

    /// The Python code of this field: its class attribute, its `__init__` parameter and
    /// its one-line description.
    pub fn compile_python(&self) -> (r: (String, String, String))
        requires
            field_compilable(self@),
        ensures
            (r.0@, r.1@, r.2@) == py_field(self@),
    {
        if matches!(self.ptype, PType::Oneof) {
            return self.compile_oneof();
        }
        let mut field_code = String::new();
        let (mut py_type, msg_type) = self.ptype.compile_python();
        let mut is_default = false;
        if self.default.is_some() {
            is_default = true;
            let mut t = String::from_str("Optional[");
            t.append(py_type.as_str());
            t.append("]");
            py_type = t;
        }
        field_code.append(self.name.as_str());
        field_code.append(": ");
        field_code.append(py_type.as_str());
        field_code.append(" = betterproto2.field(");
        field_code.append(usize_text(self.index).as_str());
        field_code.append(", betterproto2.");
        field_code.append(msg_type.as_str());
        field_code.append(", repeated=");
        field_code.append(py_bool_text(self.repeated).as_str());
        field_code.append(", optional=");
        field_code.append(py_bool_text(is_default).as_str());
        field_code.append(")");
        field_code.append("\n");
        field_code.append(self.comments.compile_python().as_str());
        let mut init = self.name.clone();
        init.append(": ");
        init.append(py_type.as_str());
        assert(field_code@ =~= py_field(self@).0);
        (field_code, init, self.comments.oneliner_python())
    }
}

impl PEnum {
    /// This enum as a Python enum class.
    pub fn compile_python(&self) -> (r: String)
        ensures
            r@ == py_enum(self@),
    {
        let mut fields = String::new();
        let mut i: usize = 0;
        while i < self.fields.len()
            invariant
                i <= self.fields.len(),
                fields@ == py_enum_values(self@.fields, i as int),
            decreases self.fields.len() - i,
        {
            fields.append("    ");
            fields.append(self.fields[i].compile_python().as_str());
            i = i + 1;
        }
        let comments = self.comments.compile_python();
        let mut r = String::from_str("class ");
        r.append(self.name.as_str());
        r.append("(betterproto2.Enum):\n");
        r.append(comments.as_str());
        r.append(fields.as_str());
        r.append("\n");
        r
    }
}

impl Message {
    /// This message as a Python dataclass.
    pub fn compile_python(&self) -> (r: String)
        requires
            message_compilable(self@),
        ensures
            r@ == py_message(self@),
    {
        let mut code = String::new();
        let mut variables_init = String::new();
        let mut variables_comment = String::new();
        let mut variables_with_default_init = String::new();
        let mut variables_with_default_comment = String::new();
        let mut assignment = String::new();
        let ghost fs = self@.fields;
        let mut i: usize = 0;
        while i < self.fields.len()
            invariant
                fs == self@.fields,
                message_compilable(self@),
                i <= self.fields.len(),
                py_message_parts(fs, i as int) == (PyMessageParts {
                    code: code@,
                    init: variables_init@,
                    comment: variables_comment@,
                    default_init: variables_with_default_init@,
                    default_comment: variables_with_default_comment@,
                    assignment: assignment@,
                }),
            decreases self.fields.len() - i,
        {
            let f = &self.fields[i];
            assert(fs[i as int] == f@);
            assert(field_compilable(fs[i as int]));
            let (preinit, init, comment) = f.compile_python();
            if f.maybe_types.is_none() {
                if f.default.is_some() {
                    let mut def = f.default.as_ref().unwrap().clone();
                    if crate::text::str_eq(def.as_str(), "PLACEHOLDER") {
                        def = f.ptype.default_python();
                    }
                    variables_with_default_init.append("        ");
                    variables_with_default_init.append(init.as_str());
                    variables_with_default_init.append(" = ");
                    variables_with_default_init.append(def.as_str());
                    variables_with_default_init.append(", \n");
                    variables_with_default_comment.append("        :param ");
                    variables_with_default_comment.append(f.name.as_str());
                    variables_with_default_comment.append(": ");
                    variables_with_default_comment.append(comment.as_str());
                    variables_with_default_comment.append(" \n");
                } else {
                    variables_init.append("        ");
                    variables_init.append(init.as_str());
                    variables_init.append(", \n");
                    variables_comment.append("        :param ");
                    variables_comment.append(f.name.as_str());
                    variables_comment.append(": ");
                    variables_comment.append(comment.as_str());
                    variables_comment.append(" \n");
                }
                code.append("    ");
                code.append(preinit.as_str());
                assignment.append("        self.");
                assignment.append(f.name.as_str());
                assignment.append(" = ");
                assignment.append(f.name.as_str());
                assignment.append("\n");
            } else {
                variables_with_default_init.append("        ");
                variables_with_default_init.append(init.as_str());
                variables_with_default_init.append(", \n");
                code.append("    ");
                code.append(preinit.as_str());
                let members = f.maybe_types.as_ref().unwrap();
                let ghost ms = f@.maybe_types->0;
                let ghost start = assignment@;
                let mut j: usize = 0;
                while j < members.len()
                    invariant
                        f.maybe_types == Some(*members),
                        ms == f@.maybe_types->0,
                        ms.len() == members.len(),
                        j <= members.len(),
                        assignment@ == start + py_member_assignments(ms, j as int),
                    decreases members.len() - j,
                {
                    assert(ms[j as int] == members[j as int]@);
                    assignment.append("        self.");
                    assignment.append(members[j].name.as_str());
                    assignment.append(" = ");
                    assignment.append(members[j].name.as_str());
                    assignment.append("\n");
                    j = j + 1;
                    assert(assignment@ =~= start + py_member_assignments(ms, j as int));
                }
            }
            i = i + 1;
        }
        let mut r = String::from_str(
            "@dataclass(\n    kw_only=True,\n    init=False,\n    eq=False,\n    repr=False,\n)\nclass ",
        );
        r.append(self.name.as_str());
        r.append("(betterproto2.Message):\n");
        r.append(self.comments.compile_python().as_str());
        r.append(code.as_str());
        r.append("\n    def __init__(\n        self,\n        *,\n");
        r.append(variables_init.as_str());
        r.append(variables_with_default_init.as_str());
        r.append("    ):\n        \"\"\"\n");
        r.append(variables_comment.as_str());
        r.append(variables_with_default_comment.as_str());
        r.append("        \"\"\"\n");
        r.append(assignment.as_str());
        r.append("\n        self._unknown_fields = b\"\"\n        ");
        r
    }
}

/// Whether every message of a schema can be compiled.
pub open spec fn schema_compilable(s: MessagesView) -> bool {
    forall|i: int| 0 <= i < s.messages.len() ==> message_compilable(#[trigger] s.messages[i])
}

impl Messages {
    /// The Python module of this schema: its enums, then its messages, each message
    /// registered in the message pool.
    pub fn compile_python(&self) -> (code: String)
        requires
            schema_compilable(self@),
        ensures
            code@ == py_module(self@),
    {
        let mut enums = String::new();
        let mut i: usize = 0;
        while i < self.penums.len()
            invariant
                i <= self.penums.len(),
                enums@ == py_enums(self@.penums, i as int),
            decreases self.penums.len() - i,
        {
            assert(self@.penums[i as int] == self.penums[i as int]@);
            enums.append(self.penums[i].compile_python().as_str());
            enums.append("\n");
            i = i + 1;
        }
        let mut messages = String::new();
        let mut j: usize = 0;
        while j < self.messages.len()
            invariant
                schema_compilable(self@),
                j <= self.messages.len(),
                messages@ == py_messages(self@.messages, j as int),
            decreases self.messages.len() - j,
        {
            let message = &self.messages[j];
            assert(self@.messages[j as int] == message@);
            assert(message_compilable(self@.messages[j as int]));
            messages.append(message.compile_python().as_str());
            messages.append("\n");
            messages.append("default_message_pool.register_message(\"\", \"");
            messages.append(message.name.as_str());
            messages.append("\", ");
            messages.append(message.name.as_str());
            messages.append(")\n\n");
            j = j + 1;
        }
        let mut code = enums;
        code.append(messages.as_str());
        code
    }
}

} // verus!
