//! The Go code generator.
use crate::ast::descriptor::{
    EnumDesc,
    EnumDescView,
    EnumValueDesc,
    EnumValueDescView,
    FieldDesc,
    FieldDescView,
    MessageDesc,
    MessageDescView,
};
use crate::ast::descriptor::{FileDesc, FileDescView, FileOptionsDesc, FileOptionsDescView, file_desc_bytes};
use crate::ast::go_templates::{
    go_enum_block,
    go_enum_block_text,
    go_final_block,
    go_final_block_text,
    go_header,
    go_header_text,
    go_message_block,
    go_message_block_text,
};
use crate::ast::penum::{PEnum, PEnumView};
use crate::ast::penum_field::PEnumFieldView;
use crate::ast::field::{Field, FieldView, fields_view};
use crate::ast::message::{Message, MessageView, Messages, MessagesView};
use crate::ast::ptype::{
    PType,
    PTypeView,
    ptype_is_nested,
    ptype_is_repeated,
    ptype_name,
};
use crate::text::{
    after_last,
    concat,
    decimal,
    i32_text,
    last_segment,
    replace_char,
    replaced,
    signed_decimal,
    str_eq,
    strip_suffix,
    trim_end_matches,
    trim_start_matches,
    trimmed_end,
    trimmed_start,
    usize_text,
    without_suffix,
};
use crate::util::{
    capitalize_first,
    pascal_case,
    pascal_to_snake,
    snake_case,
    snake_to_pascal,
    str_to_lowercase,
    unicode_str_lowercase,
};
use vstd::prelude::*;

verus! {

/// The Go type of a field of type `t`.
pub open spec fn go_type(t: PTypeView) -> Seq<char> {
    match t {
        PTypeView::Int32 => "int32"@,
        PTypeView::RepeatedInt32 => "[]int32"@,
        PTypeView::PString => "string"@,
        PTypeView::RepeatedPString => "[]string"@,
        PTypeView::Custom(n) => "*"@ + n,
        PTypeView::RepeatedCustom(n) => "[]*"@ + n,
        PTypeView::Oneof => seq![],
    }
}

/// The Go zero value of a field of type `t`.
pub open spec fn go_default(t: PTypeView) -> Seq<char> {
    match t {
        PTypeView::Int32 => "0"@,
        PTypeView::PString => "\"\""@,
        _ => "nil"@,
    }
}

/// The `descriptor.proto` type number (`FieldDescriptorProto.Type`) of a scalar type name;
/// unknown names count as `string`.
pub open spec fn proto_type_number(name: Seq<char>) -> i32 {
    if name == "double"@ {
        1
    } else if name == "float"@ {
        2
    } else if name == "int64"@ {
        3
    } else if name == "uint64"@ {
        4
    } else if name == "int32"@ {
        5
    } else if name == "fixed64"@ {
        6
    } else if name == "fixed32"@ {
        7
    } else if name == "bool"@ {
        8
    } else if name == "string"@ {
        9
    } else if name == "bytes"@ {
        12
    } else if name == "message"@ {
        11
    } else {
        9
    }
}

/// The descriptor of a field: labelled repeated (3) or optional (1); typed as an enum (14)
/// or message (11) when it names one, otherwise by its type name; with a type reference
/// `.name` when it names one.
pub open spec fn field_desc_of(f: FieldView, is_enum: bool, oneof_index: Option<i32>) -> FieldDescView {
    FieldDescView {
        name: f.name,
        number: f.index as i32,
        label: if f.repeated {
            3
        } else {
            1
        },
        kind: if f.ptype is Custom || f.ptype is RepeatedCustom {
            if is_enum {
                14
            } else {
                11
            }
        } else {
            proto_type_number(ptype_name(f.ptype))
        },
        type_ref: if ptype_is_nested(f.ptype) {
            Some("."@ + ptype_name(f.ptype))
        } else {
            None
        },
        oneof_index,
        json_name: f.name,
    }
}

/// Whether `name` is the name of one of the enums `enums`.
pub open spec fn names_enum(enums: Seq<Seq<char>>, name: Seq<char>) -> bool {
    exists|i: int| 0 <= i < enums.len() && enums[i] == name
}

/// What compiling a plain field of the message `message` to Go gives: its struct member,
/// its getter and the type it depends on.
pub open spec fn go_field(f: FieldView, message: Seq<char>) -> (Seq<char>, Seq<char>, Option<Seq<char>>) {
    let name = pascal_case(f.name);
    let str_type = if f.maybe_types is None {
        go_type(f.ptype)
    } else {
        "is"@ + message + "_"@ + name
    };
    let default = match f.default {
        Some(d) => d,
        None => go_default(f.ptype),
    };
    let parse_type = if f.ptype is Int32 || f.ptype is RepeatedInt32 {
        "varint"@
    } else {
        "bytes"@
    };
    let index = decimal(f.index as nat);
    let struct_var = if f.maybe_types is None {
        "    "@ + name + "  "@ + str_type + " `protobuf:\""@ + parse_type + ","@ + index
            + ",opt,name="@ + f.name + ",proto3\" json:\""@ + f.name + ",omitempty\"`\n"@
    } else {
        "    "@ + name + "  "@ + str_type + " `protobuf_oneof:\""@ + f.name + "\"`\n"@
    };
    let getter = "\nfunc (x *"@ + message + ") Get"@ + name + "() "@ + str_type
        + " {\n    if x != nil {\n        return x."@ + name + "\n    }\n    return "@ + default
        + "\n}\n        "@;
    let dependency = match f.ptype {
        PTypeView::Custom(n) => Some(n),
        PTypeView::RepeatedCustom(n) => Some(n),
        _ => None,
    };
    (struct_var, getter, dependency)
}

impl PType {
    /// The Go type of a field of this type.
    pub fn compile_go(&self) -> (r: String)
        ensures
            r@ == go_type(self@),
    {
        match self {
            PType::Int32 => String::from_str("int32"),
            PType::RepeatedInt32 => String::from_str("[]int32"),
            PType::PString => String::from_str("string"),
            PType::RepeatedPString => String::from_str("[]string"),
            PType::Custom(n) => concat("*", n.as_str()),
            PType::RepeatedCustom(n) => concat("[]*", n.as_str()),
            PType::Oneof => String::new(),
        }
    }

    /// The Go zero value of a field of this type.
    pub fn default_go(&self) -> (r: String)
        ensures
            r@ == go_default(self@),
    {
        match self {
            PType::Int32 => String::from_str("0"),
            PType::RepeatedInt32 => String::from_str("nil"),
            PType::PString => String::from_str("\"\""),
            PType::RepeatedPString => String::from_str("nil"),
            PType::Custom(_) => String::from_str("nil"),
            PType::RepeatedCustom(_) => String::from_str("nil"),
            PType::Oneof => String::from_str("nil"),
        }
    }
}

impl Field {
    /// The `descriptor.proto` type number of the scalar type name `type_word`; unknown
    /// names count as `string`.
    pub fn get_proto_type(&self, type_word: &str) -> (r: i32)
        ensures
            r == proto_type_number(type_word@),
    {
        if str_eq(type_word, "double") {
            1
        } else if str_eq(type_word, "float") {
            2
        } else if str_eq(type_word, "int64") {
            3
        } else if str_eq(type_word, "uint64") {
            4
        } else if str_eq(type_word, "int32") {
            5
        } else if str_eq(type_word, "fixed64") {
            6
        } else if str_eq(type_word, "fixed32") {
            7
        } else if str_eq(type_word, "bool") {
            8
        } else if str_eq(type_word, "string") {
            9
        } else if str_eq(type_word, "bytes") {
            12
        } else if str_eq(type_word, "message") {
            11
        } else {
            9
        }
    }

    /// Appends the descriptor of this field to the message descriptor `msg`.
    pub fn add_field_to_desc(&self, msg: &mut MessageDesc, is_enum: bool, oneof_index: Option<i32>)
        ensures
            final(msg)@ == (MessageDescView {
                field: old(msg)@.field.push(field_desc_of(self@, is_enum, oneof_index)),
                ..old(msg)@
            }),
    {
        let kind = match &self.ptype {
            PType::Custom(_) | PType::RepeatedCustom(_) => {
                if is_enum {
                    14
                } else {
                    11
                }
            },
            _ => self.get_proto_type(self.ptype.to_string().as_str()),
        };
        let type_ref = if self.ptype.is_nested() {
            Some(concat(".", self.ptype.to_string().as_str()))
        } else {
            None
        };
        let field = FieldDesc {
            name: self.name.clone(),
            number: #[verifier::truncate] (self.index as i32),
            label: if self.repeated {
                3
            } else {
                1
            },
            kind,
            type_ref,
            oneof_index,
            json_name: self.name.clone(),
        };
        let ghost before = msg@;
        msg.field.push(field);
        assert(msg@.field =~= before.field.push(field_desc_of(self@, is_enum, oneof_index)));
    }

    /// Compiles this field of the message `message` to Go: returns its struct member, its
    /// getter and the type it depends on, and appends its descriptor to `desc`. A field
    /// whose type names one of `enum_types` is described as an enum, another named type as
    /// a message.
    pub fn compile_go(
        &self,
        message: String,
        desc: &mut MessageDesc,
        enum_types: &Vec<String>,
        oneof_index: Option<i32>,
    ) -> (r: (String, String, Option<String>))
        ensures
            (r.0@, r.1@, match r.2 {
                Some(d) => Some(d@),
                None => None,
            }) == go_field(self@, message@),
            final(desc)@ == (MessageDescView {
                field: old(desc)@.field.push(
                    field_desc_of(
                        self@,
                        names_enum(enum_types@.map_values(|e: String| e@), ptype_name(self@.ptype)),
                        oneof_index,
                    ),
                ),
                ..old(desc)@
            }),
    {
        let name = snake_to_pascal(self.name.as_str());
        let str_type = if self.maybe_types.is_none() {
            self.ptype.compile_go()
        } else {
            let mut t = String::from_str("is");
            t.append(message.as_str());
            t.append("_");
            t.append(name.as_str());
            t
        };
        let default = match &self.default {
            Some(d) => d.clone(),
            None => self.ptype.default_go(),
        };
        let parse_type = match self.ptype {
            PType::Int32 | PType::RepeatedInt32 => String::from_str("varint"),
            _ => String::from_str("bytes"),
        };
        let index = usize_text(self.index);
        let struct_var = if self.maybe_types.is_none() {
            let mut s = String::from_str("    ");
            s.append(name.as_str());
            s.append("  ");
            s.append(str_type.as_str());
            s.append(" `protobuf:\"");
            s.append(parse_type.as_str());
            s.append(",");
            s.append(index.as_str());
            s.append(",opt,name=");
            s.append(self.name.as_str());
            s.append(",proto3\" json:\"");
            s.append(self.name.as_str());
            s.append(",omitempty\"`\n");
            s
        } else {
            let mut s = String::from_str("    ");
            s.append(name.as_str());
            s.append("  ");
            s.append(str_type.as_str());
            s.append(" `protobuf_oneof:\"");
            s.append(self.name.as_str());
            s.append("\"`\n");
            s
        };
        let mut getter = String::from_str("\nfunc (x *");
        getter.append(message.as_str());
        getter.append(") Get");
        getter.append(name.as_str());
        getter.append("() ");
        getter.append(str_type.as_str());
        getter.append(" {\n    if x != nil {\n        return x.");
        getter.append(name.as_str());
        getter.append("\n    }\n    return ");
        getter.append(default.as_str());
        getter.append("\n}\n        ");
        let dependency = match &self.ptype {
            PType::Custom(n) | PType::RepeatedCustom(n) => Some(n.clone()),
            _ => None,
        };
        let mut is_enum = false;
        let typ = self.ptype.to_string();
        let ghost enums = enum_types@.map_values(|e: String| e@);
        let mut i: usize = 0;
        while i < enum_types.len()
            invariant
                enums == enum_types@.map_values(|e: String| e@),
                typ@ == ptype_name(self@.ptype),
                i <= enum_types.len(),
                is_enum == exists|j: int| 0 <= j < i && enums[j] == typ@,
            decreases enum_types.len() - i,
        {
            let enum_type = &enum_types[i];
            if str_eq(enum_type.as_str(), typ.as_str()) {
                is_enum = true;
            }
            assert(enums[i as int] == enum_type@);
            i = i + 1;
        }
        self.add_field_to_desc(desc, is_enum, oneof_index);
        (struct_var, getter, dependency)
    }
}

/// A field type requalified by the imported module `tmp`: a message or enum type whose
/// name is `msg_name` becomes `tmp.msg_name`, repeated or not as it was.
pub open spec fn requalified(t: PTypeView, msg_name: Seq<char>, tmp: Seq<char>) -> PTypeView {
    if ptype_name(t) == msg_name && ptype_is_nested(t) {
        let q = tmp + "."@ + ptype_name(t);
        if ptype_is_repeated(t) {
            PTypeView::RepeatedCustom(q)
        } else {
            PTypeView::Custom(q)
        }
    } else {
        t
    }
}

/// A field type requalified in turn by the names of the first `n` messages of an imported
/// module.
pub open spec fn requalified_by(t: PTypeView, ms: Seq<MessageView>, tmp: Seq<char>, n: int) -> PTypeView
    decreases n,
{
    if n <= 0 {
        t
    } else {
        requalified(requalified_by(t, ms, tmp, n - 1), ms[n - 1].name, tmp)
    }
}

/// A field whose type, and the types of its alternatives, are requalified by the messages
/// of the imported module `tmp`.
pub open spec fn imported_field(f: FieldView, ms: Seq<MessageView>, tmp: Seq<char>) -> FieldView
    decreases f,
{
    FieldView {
        ptype: requalified_by(f.ptype, ms, tmp, ms.len() as int),
        maybe_types: match f.maybe_types {
            Some(alts) => Some(
                Seq::new(
                    alts.len(),
                    |i: int|
                        if 0 <= i < alts.len() {
                            imported_field(alts[i], ms, tmp)
                        } else {
                            f
                        },
                ),
            ),
            None => None,
        },
        ..f
    }
}

/// Requalifies the type of `field`, and of its alternatives, by the messages of the
/// imported module `module`, known in Go as `tmp`.
pub fn import_field(field: &mut Field, object: &String, tmp: &String, module: &Messages)
    ensures
        final(field)@ == imported_field(old(field)@, module@.messages, tmp@),
    decreases *old(field),
{
    let ghost orig = field@;
    let mut taken: Option<Vec<Field>> = None;
    std::mem::swap(&mut taken, &mut field.maybe_types);
    if let Some(mut nested) = taken {
        let ghost start = nested@;
        let mut i: usize = 0;
        while i < nested.len()
            invariant
                i <= nested.len(),
                nested@.len() == start.len(),
                forall|j: int| i <= j < start.len() ==> nested@[j] == start[j],
                forall|j: int|
                    0 <= j < i ==> nested@[j]@ == imported_field(start[j]@, module@.messages, tmp@),
                decreases_to!(*old(field) => start),
            decreases nested.len() - i,
        {
            proof {
                assert(decreases_to!(start => start[i as int]));
            }
            import_field(&mut nested[i], object, tmp, module);
            i = i + 1;
        }
        field.maybe_types = Some(nested);
        proof {
            let alts = orig.maybe_types->0;
            assert(alts.len() == start.len());
            assert forall|j: int| 0 <= j < start.len() implies alts[j] == start[j]@ by {}
            assert(field@.maybe_types->0 =~= imported_field(orig, module@.messages, tmp@).maybe_types->0);
        }
    }
    let ghost ms = module@.messages;
    let ghost target = imported_field(orig, ms, tmp@);
    assert(field@ == (FieldView { ptype: orig.ptype, ..target }));
    let mut k: usize = 0;
    while k < module.messages.len()
        invariant
            k <= module.messages.len(),
            ms == module@.messages,
            target == imported_field(orig, ms, tmp@),
            field@ == (FieldView { ptype: requalified_by(orig.ptype, ms, tmp@, k as int), ..target }),
        decreases module.messages.len() - k,
    {
        let module_message = &module.messages[k];
        assert(ms[k as int] == module_message@);
        if str_eq(field.ptype.to_string().as_str(), module_message.name.as_str()) {
            if field.ptype.is_nested() {
                let actual = field.ptype.to_string();
                let mut q = tmp.clone();
                q.append(".");
                q.append(actual.as_str());
                if field.ptype.is_repeated() {
                    field.ptype = PType::RepeatedCustom(q);
                } else {
                    field.ptype = PType::Custom(q);
                }
            }
        }
        k = k + 1;
    }
}

/// The descriptors of the first `n` alternatives of a `oneof` group with index `idx`.
pub open spec fn alt_descs(alts: Seq<FieldView>, idx: i32, n: int) -> Seq<FieldDescView>
    decreases n,
{
    if n <= 0 {
        seq![]
    } else {
        alt_descs(alts, idx, n - 1).push(field_desc_of(alts[n - 1], false, Some(idx)))
    }
}

/// The getter of the alternative `a` of the `oneof` group `group` of the message `message`.
pub open spec fn alt_getter(message: Seq<char>, group: Seq<char>, a: FieldView) -> Seq<char> {
    let branch = pascal_case(a.name);
    "\nfunc (x *"@ + message + ") Get"@ + branch + "() "@ + go_type(a.ptype)
        + " {\n    if x != nil {\n        if x, ok := x."@ + group + ".(*"@ + message + "_"@ + branch
        + "); ok {\n            return x."@ + branch + "\n        }\n    }\n    return "@ + go_default(
        a.ptype,
    ) + "\n}\n"@
}

/// The getters of the first `n` alternatives of the `oneof` group `group` of the message
/// `message`.
pub open spec fn alt_getters(message: Seq<char>, group: Seq<char>, alts: Seq<FieldView>, n: int) -> Seq<char>
    decreases n,
{
    if n <= 0 {
        seq![]
    } else {
        alt_getters(message, group, alts, n - 1) + alt_getter(message, group, alts[n - 1])
    }
}

/// The wrapper struct of the alternative `a` of a `oneof` group whose interface is `iface`,
/// in the message `message`.
pub open spec fn alt_struct(message: Seq<char>, iface: Seq<char>, a: FieldView) -> Seq<char> {
    let branch = pascal_case(a.name);
    "\ntype "@ + message + "_"@ + branch + " struct {\n    "@ + branch + " "@ + go_type(a.ptype)
        + " `protobuf:\"bytes,"@ + decimal(a.index as nat) + ",opt,name="@ + a.name
        + ",proto3,oneof\"`\n}\n\nfunc (*"@ + message + "_"@ + branch + ") "@ + iface
        + "() {}\n"@
}

/// The wrapper structs of the first `n` alternatives of a `oneof` group whose interface is
/// `iface`, in the message `message`.
pub open spec fn alt_structs(message: Seq<char>, iface: Seq<char>, alts: Seq<FieldView>, n: int) -> Seq<char>
    decreases n,
{
    if n <= 0 {
        seq![]
    } else {
        alt_structs(message, iface, alts, n - 1) + alt_struct(message, iface, alts[n - 1])
    }
}

/// The getter of a `oneof` group whose Go field is `group` with interface `iface`.
pub open spec fn group_getter(message: Seq<char>, group: Seq<char>, iface: Seq<char>) -> Seq<char> {
    "\nfunc (x *"@ + message + ") Get"@ + group + "() "@ + iface
        + " {\n    if x != nil {\n        return x."@ + group + "\n    }\n    return nil\n}\n"@
}

/// The struct member of a `oneof` group named `name`, whose Go field is `group` with
/// interface `iface`.
pub open spec fn group_member(name: Seq<char>, group: Seq<char>, iface: Seq<char>) -> Seq<char> {
    "    "@ + group + "  "@ + iface + " `protobuf_oneof:\""@ + name + "\"`\n"@
}

/// The interface of a `oneof` group.
pub open spec fn group_interface(iface: Seq<char>) -> Seq<char> {
    "\ntype "@ + iface + " interface {\n    "@ + iface + "()\n}\n"@
}

/// What compiling the fields of a message to Go has built so far.
pub struct GoMessageState {
    pub struct_code: Seq<char>,
    pub getters: Seq<char>,
    pub desc: MessageDescView,
    pub deps: Seq<Seq<char>>,
    /// The index of the last `oneof` group met, which later plain fields carry too.
    pub oneof_idx: Option<i32>,
}

/// What compiling the first `n` fields of a message to Go builds.
pub open spec fn go_message_state(m: MessageView, enums: Seq<Seq<char>>, n: int) -> GoMessageState
    decreases n,
{
    if n <= 0 {
        GoMessageState {
            struct_code: "\ntype "@ + m.name
                + " struct {\n    state protoimpl.MessageState `protogen:\"open.v1\"`\n    unknownFields protoimpl.UnknownFields\n    sizeCache     protoimpl.SizeCache\n"@,
            getters: seq![],
            desc: MessageDescView { name: m.name, field: seq![], oneof_decl: seq![] },
            deps: seq![],
            oneof_idx: None,
        }
    } else {
        let st = go_message_state(m, enums, n - 1);
        let f = m.fields[n - 1];
        match f.maybe_types {
            Some(alts) => {
                let idx = st.desc.oneof_decl.len() as i32;
                let pascal = pascal_case(f.name);
                let iface = "is"@ + m.name + "_"@ + pascal;
                GoMessageState {
                    struct_code: st.struct_code + group_member(f.name, pascal, iface),
                    getters: st.getters + alt_getters(m.name, pascal, alts, alts.len() as int)
                        + group_getter(m.name, pascal, iface),
                    desc: MessageDescView {
                        name: st.desc.name,
                        field: st.desc.field + alt_descs(alts, idx, alts.len() as int),
                        oneof_decl: st.desc.oneof_decl.push(f.name),
                    },
                    deps: st.deps,
                    oneof_idx: Some(idx),
                }
            },
            None => {
                let (struct_var, getter, dep) = go_field(f, m.name);
                GoMessageState {
                    struct_code: st.struct_code + struct_var,
                    getters: st.getters + getter,
                    desc: MessageDescView {
                        field: st.desc.field.push(
                            field_desc_of(f, names_enum(enums, ptype_name(f.ptype)), st.oneof_idx),
                        ),
                        ..st.desc
                    },
                    deps: match dep {
                        Some(d) => st.deps.push(d),
                        None => st.deps,
                    },
                    oneof_idx: st.oneof_idx,
                }
            },
        }
    }
}

/// The interfaces and wrapper structs of the `oneof` groups among the first `n` fields of a
/// message.
pub open spec fn go_oneof_types(m: MessageView, n: int) -> Seq<char>
    decreases n,
{
    if n <= 0 {
        seq![]
    } else {
        let f = m.fields[n - 1];
        match f.maybe_types {
            Some(alts) => {
                let iface = "is"@ + m.name + "_"@ + pascal_case(f.name);
                go_oneof_types(m, n - 1) + group_interface(iface) + alt_structs(
                    m.name,
                    iface,
                    alts,
                    alts.len() as int,
                )
            },
            None => go_oneof_types(m, n - 1),
        }
    }
}

/// What compiling a message to Go gives, when the schema's enums are `enums`: the struct
/// and its `oneof` types, the getters, the descriptor, and the types the fields depend on.
pub open spec fn go_message(m: MessageView, enums: Seq<Seq<char>>) -> (Seq<char>, Seq<char>, MessageDescView, Seq<Seq<char>>) {
    let st = go_message_state(m, enums, m.fields.len() as int);
    (
        st.struct_code + "}\n"@ + go_oneof_types(m, m.fields.len() as int),
        st.getters,
        st.desc,
        st.deps,
    )
}

fn alt_getter_text(message: &String, group: &String, a: &Field) -> (r: String)
    ensures
        r@ == alt_getter(message@, group@, a@),
{
    let branch_name = snake_to_pascal(a.name.as_str());
    let branch_type = a.ptype.compile_go();
    let default_val = a.ptype.default_go();
    let mut g = String::from_str("\nfunc (x *");
    g.append(message.as_str());
    g.append(") Get");
    g.append(branch_name.as_str());
    g.append("() ");
    g.append(branch_type.as_str());
    g.append(" {\n    if x != nil {\n        if x, ok := x.");
    g.append(group.as_str());
    g.append(".(*");
    g.append(message.as_str());
    g.append("_");
    g.append(branch_name.as_str());
    g.append("); ok {\n            return x.");
    g.append(branch_name.as_str());
    g.append("\n        }\n    }\n    return ");
    g.append(default_val.as_str());
    g.append("\n}\n");
    g
}

fn alt_struct_text(message: &String, iface: &String, a: &Field) -> (r: String)
    ensures
        r@ == alt_struct(message@, iface@, a@),
{
    let type_text = a.ptype.compile_go();
    let branch_struct_name = snake_to_pascal(a.name.as_str());
    let mut t = String::from_str("\ntype ");
    t.append(message.as_str());
    t.append("_");
    t.append(branch_struct_name.as_str());
    t.append(" struct {\n    ");
    t.append(branch_struct_name.as_str());
    t.append(" ");
    t.append(type_text.as_str());
    t.append(" `protobuf:\"bytes,");
    t.append(usize_text(a.index).as_str());
    t.append(",opt,name=");
    t.append(a.name.as_str());
    t.append(",proto3,oneof\"`\n}\n\nfunc (*");
    t.append(message.as_str());
    t.append("_");
    t.append(branch_struct_name.as_str());
    t.append(") ");
    t.append(iface.as_str());
    t.append("() {}\n");
    t
}

fn group_getter_text(message: &String, group: &String, iface: &String) -> (r: String)
    ensures
        r@ == group_getter(message@, group@, iface@),
{
    let mut g = String::from_str("\nfunc (x *");
    g.append(message.as_str());
    g.append(") Get");
    g.append(group.as_str());
    g.append("() ");
    g.append(iface.as_str());
    g.append(" {\n    if x != nil {\n        return x.");
    g.append(group.as_str());
    g.append("\n    }\n    return nil\n}\n");
    g
}

fn group_member_text(name: &String, group: &String, iface: &String) -> (r: String)
    ensures
        r@ == group_member(name@, group@, iface@),
{
    let mut t = String::from_str("    ");
    t.append(group.as_str());
    t.append("  ");
    t.append(iface.as_str());
    t.append(" `protobuf_oneof:\"");
    t.append(name.as_str());
    t.append("\"`\n");
    t
}

fn group_interface_text(iface: &String) -> (r: String)
    ensures
        r@ == group_interface(iface@),
{
    let mut t = String::from_str("\ntype ");
    t.append(iface.as_str());
    t.append(" interface {\n    ");
    t.append(iface.as_str());
    t.append("()\n}\n");
    t
}

impl Message {
    /// Compiles this message to Go, given the names of the schema's enums: returns its
    /// struct with its `oneof` types, its getters, its descriptor and the types its fields
    /// depend on.
    pub fn compile_go(&self, enum_types: &Vec<String>) -> (r: (String, String, MessageDesc, Vec<String>))
        ensures
            ({
                let (s, g, d, deps) = go_message(self@, enum_types@.map_values(|e: String| e@));
                &&& r.0@ == s
                &&& r.1@ == g
                &&& r.2@ == d
                &&& r.3@.map_values(|x: String| x@) == deps
            }),
    {
        let ghost m = self@;
        let ghost enums = enum_types@.map_values(|e: String| e@);
        let name = self.name.clone();
        let mut desc = MessageDesc { name: name.clone(), field: Vec::new(), oneof_decl: Vec::new() };
        let mut deps: Vec<String> = Vec::new();
        let mut struct_code = String::from_str("\ntype ");
        struct_code.append(name.as_str());
        struct_code.append(
            " struct {\n    state protoimpl.MessageState `protogen:\"open.v1\"`\n    unknownFields protoimpl.UnknownFields\n    sizeCache     protoimpl.SizeCache\n",
        );
        let mut getters = String::new();
        let mut oneof_idx: Option<i32> = None;
        proof {
            assert(desc@.field =~= seq![]);
            assert(desc@.oneof_decl =~= seq![]);
            assert(deps@.map_values(|x: String| x@) =~= seq![]);
        }
        let mut i: usize = 0;
        while i < self.fields.len()
            invariant
                m == self@,
                enums == enum_types@.map_values(|e: String| e@),
                name@ == m.name,
                i <= self.fields.len(),
                go_message_state(m, enums, i as int) == (GoMessageState {
                    struct_code: struct_code@,
                    getters: getters@,
                    desc: desc@,
                    deps: deps@.map_values(|x: String| x@),
                    oneof_idx,
                }),
            decreases self.fields.len() - i,
        {
            let field = &self.fields[i];
            assert(m.fields[i as int] == field@);
            if let Some(nested_fields) = &field.maybe_types {
                let ghost alts = field@.maybe_types->0;
                assert(alts.len() == nested_fields.len());
                let idx = #[verifier::truncate] (desc.oneof_decl.len() as i32);
                oneof_idx = Some(idx);
                let ghost before = desc@;
                desc.oneof_decl.push(field.name.clone());
                assert(desc@.oneof_decl =~= before.oneof_decl.push(field@.name));
                let pascal_name = snake_to_pascal(field.name.as_str());
                let mut interface_name = String::from_str("is");
                interface_name.append(name.as_str());
                interface_name.append("_");
                interface_name.append(pascal_name.as_str());
                struct_code.append(group_member_text(&field.name, &pascal_name, &interface_name).as_str());
                let ghost getters_start = getters@;
                let ghost fields_start = desc@.field;
                let mut j: usize = 0;
                while j < nested_fields.len()
                    invariant
                        field.maybe_types == Some(*nested_fields),
                        alts == field@.maybe_types->0,
                        alts.len() == nested_fields.len(),
                        name@ == m.name,
                        j <= nested_fields.len(),
                        pascal_name@ == pascal_case(field@.name),
                        getters@ == getters_start + alt_getters(m.name, pascal_name@, alts, j as int),
                        desc@ == (MessageDescView {
                            field: fields_start + alt_descs(alts, idx, j as int),
                            ..desc@
                        }),
                        desc@.name == before.name,
                        desc@.oneof_decl == before.oneof_decl.push(field@.name),
                        oneof_idx == Some(idx),
                    decreases nested_fields.len() - j,
                {
                    let nested = &nested_fields[j];
                    assert(alts[j as int] == nested@);
                    nested.add_field_to_desc(&mut desc, false, oneof_idx);
                    getters.append(alt_getter_text(&name, &pascal_name, nested).as_str());
                    j = j + 1;
                    assert(getters@ =~= getters_start + alt_getters(m.name, pascal_name@, alts, j as int));
                    assert(desc@.field =~= fields_start + alt_descs(alts, idx, j as int));
                }
                getters.append(group_getter_text(&name, &pascal_name, &interface_name).as_str());
                assert(getters@ =~= go_message_state(m, enums, i + 1).getters);
                assert(struct_code@ =~= go_message_state(m, enums, i + 1).struct_code);
            } else {
                let ghost before_deps = deps@.map_values(|x: String| x@);
                let (struct_var, getter, dep) = field.compile_go(
                    name.clone(),
                    &mut desc,
                    enum_types,
                    oneof_idx,
                );
                struct_code.append(struct_var.as_str());
                getters.append(getter.as_str());
                if let Some(d) = dep {
                    deps.push(d);
                    assert(deps@.map_values(|x: String| x@) =~= before_deps.push(
                        deps@.last()@,
                    ));
                }
            }
            i = i + 1;
        }
        struct_code.append("}\n");
        let ghost head = struct_code@;
        let mut k: usize = 0;
        while k < self.fields.len()
            invariant
                m == self@,
                name@ == m.name,
                k <= self.fields.len(),
                struct_code@ == head + go_oneof_types(m, k as int),
            decreases self.fields.len() - k,
        {
            let field = &self.fields[k];
            assert(m.fields[k as int] == field@);
            if let Some(nested_fields) = &field.maybe_types {
                let ghost alts = field@.maybe_types->0;
                assert(alts.len() == nested_fields.len());
                let pascal_name = snake_to_pascal(field.name.as_str());
                let mut is_type_name = String::from_str("is");
                is_type_name.append(self.name.as_str());
                is_type_name.append("_");
                is_type_name.append(pascal_name.as_str());
                struct_code.append(group_interface_text(&is_type_name).as_str());
                let ghost mid = struct_code@;
                let mut j: usize = 0;
                while j < nested_fields.len()
                    invariant
                        field.maybe_types == Some(*nested_fields),
                        alts == field@.maybe_types->0,
                        alts.len() == nested_fields.len(),
                        name@ == m.name,
                        j <= nested_fields.len(),
                        struct_code@ == mid + alt_structs(m.name, is_type_name@, alts, j as int),
                    decreases nested_fields.len() - j,
                {
                    let nested = &nested_fields[j];
                    assert(alts[j as int] == nested@);
                    struct_code.append(alt_struct_text(&name, &is_type_name, nested).as_str());
                    j = j + 1;
                    assert(struct_code@ =~= mid + alt_structs(m.name, is_type_name@, alts, j as int));
                }
                assert(struct_code@ =~= head + go_oneof_types(m, k + 1));
            }
            k = k + 1;
        }
        (struct_code, getters, desc, deps)
    }
}

/// The lowercase hexadecimal digit for `d` (below sixteen).
pub open spec fn hex_digit(d: nat) -> char {
    if d < 10 {
        crate::text::digit_char(d)
    } else if d == 10 {
        'a'
    } else if d == 11 {
        'b'
    } else if d == 12 {
        'c'
    } else if d == 13 {
        'd'
    } else if d == 14 {
        'e'
    } else {
        'f'
    }
}

/// How the byte `b` is written inside a Go string literal: printable ASCII as itself
/// (backslash and double quote escaped), tab and backspace as `\t` and `\b`, other bytes as
/// `\xHH`; a newline is written `\n` and ends the line of the literal, which continues
/// with `+` on the next line.
pub open spec fn go_byte(b: u8) -> Seq<char> {
    if b == 10 {
        "\\n\" + \n    \""@
    } else if b == 92 {
        "\\\\"@
    } else if b == 34 {
        "\\\""@
    } else if 32 <= b <= 126 {
        seq![b as char]
    } else if b == 9 {
        "\\t"@
    } else if b == 8 {
        "\\b"@
    } else {
        "\\x"@ + seq![hex_digit((b / 16) as nat), hex_digit((b % 16) as nat)]
    }
}

/// The first `n` bytes of `bs` written inside a Go string literal.
pub open spec fn go_bytes(bs: Seq<u8>, n: int) -> Seq<char>
    decreases n,
{
    if n <= 0 {
        seq![]
    } else {
        go_bytes(bs, n - 1) + go_byte(bs[n - 1])
    }
}

/// A Go string constant named `var_name` holding the bytes `bs`.
pub open spec fn go_string_const(bs: Seq<u8>, var_name: Seq<char>) -> Seq<char> {
    "const "@ + var_name + " = \"\" +\n    \""@ + go_bytes(bs, bs.len() as int) + "\""@
}

fn hex_char(d: u8) -> (c: char)
    requires
        d < 16,
    ensures
        c == hex_digit(d as nat),
{
    if d < 10 {
        if d == 0 {
            '0'
        } else if d == 1 {
            '1'
        } else if d == 2 {
            '2'
        } else if d == 3 {
            '3'
        } else if d == 4 {
            '4'
        } else if d == 5 {
            '5'
        } else if d == 6 {
            '6'
        } else if d == 7 {
            '7'
        } else if d == 8 {
            '8'
        } else {
            '9'
        }
    } else if d == 10 {
        'a'
    } else if d == 11 {
        'b'
    } else if d == 12 {
        'c'
    } else if d == 13 {
        'd'
    } else if d == 14 {
        'e'
    } else {
        'f'
    }
}

fn go_byte_text(b: u8) -> (r: String)
    ensures
        r@ == go_byte(b),
{
    if b == 10 {
        String::from_str("\\n\" + \n    \"")
    } else if b == 92 {
        String::from_str("\\\\")
    } else if b == 34 {
        String::from_str("\\\"")
    } else if 32 <= b && b <= 126 {
        let mut r = String::new();
        crate::text::push_char(&mut r, b as char);
        assert(r@ =~= go_byte(b));
        r
    } else if b == 9 {
        String::from_str("\\t")
    } else if b == 8 {
        String::from_str("\\b")
    } else {
        let mut r = String::from_str("\\x");
        crate::text::push_char(&mut r, hex_char(b / 16));
        crate::text::push_char(&mut r, hex_char(b % 16));
        assert(r@ =~= go_byte(b));
        r
    }
}

impl Messages {
    /// A Go string constant named `var_name` holding the bytes `raw_bytes`.
    pub fn generate_go_string(&self, raw_bytes: &[u8], var_name: &str) -> (escaped: String)
        ensures
            escaped@ == go_string_const(raw_bytes@, var_name@),
    {
        let mut escaped = String::from_str("const ");
        escaped.append(var_name);
        escaped.append(" = \"\" +\n    \"");
        let mut body = String::new();
        let mut i: usize = 0;
        while i < raw_bytes.len()
            invariant
                i <= raw_bytes.len(),
                body@ == go_bytes(raw_bytes@, i as int),
            decreases raw_bytes.len() - i,
        {
            body.append(go_byte_text(raw_bytes[i]).as_str());
            i = i + 1;
        }
        escaped.append(body.as_str());
        escaped.append("\"");
        escaped
    }
}

/// The imported file of an import: its path without the surrounding quotes.
pub open spec fn import_file(imp: Seq<char>) -> Seq<char> {
    trimmed_end(trimmed_start(imp, "\""@), "\""@)
}

/// The imported object of an import: the last segment of its path, without the closing
/// quote.
pub open spec fn import_object(imp: Seq<char>) -> Seq<char> {
    trimmed_end(after_last(imp, '/'), "\""@)
}

/// The directory of an import, by which Go code refers to it: its file without the last
/// segment; `None` when the file does not end with `/` and that segment.
pub open spec fn import_dir(imp: Seq<char>) -> Option<Seq<char>> {
    without_suffix(import_file(imp), "/"@ + import_object(imp))
}

/// What the list of known schemas holds: each file with its schema.
pub open spec fn modules_view(all: Seq<(String, Messages)>) -> Seq<(Seq<char>, MessagesView)> {
    all.map_values(|e: (String, Messages)| (e.0@, e.1@))
}

/// The schema of the first entry from position `i` on whose file is `file`.
pub open spec fn find_module_spec(all: Seq<(Seq<char>, MessagesView)>, file: Seq<char>, i: int) -> Option<MessagesView>
    decreases all.len() - i,
{
    if i < 0 || i >= all.len() {
        None
    } else if all[i].0 == file {
        Some(all[i].1)
    } else {
        find_module_spec(all, file, i + 1)
    }
}

/// The schema known for `file`.
pub open spec fn lookup_module(all: Seq<(Seq<char>, MessagesView)>, file: Seq<char>) -> Option<MessagesView> {
    find_module_spec(all, file, 0)
}

/// A message whose fields are requalified by the messages of the module `tmp`.
pub open spec fn imported_message(m: MessageView, module: Seq<MessageView>, tmp: Seq<char>) -> MessageView {
    MessageView { fields: m.fields.map_values(|f: FieldView| imported_field(f, module, tmp)), ..m }
}

/// Messages whose fields are requalified by the messages of the module `tmp`.
pub open spec fn imported_messages(ms: Seq<MessageView>, module: Seq<MessageView>, tmp: Seq<char>) -> Seq<MessageView> {
    ms.map_values(|m: MessageView| imported_message(m, module, tmp))
}

/// Whether some message has a field.
pub open spec fn has_fields(ms: Seq<MessageView>) -> bool {
    exists|i: int| 0 <= i < ms.len() && ms[i].fields.len() > 0
}

/// Whether the imports of a schema can be resolved against the known schemas `all`: each
/// import ends with `/` and a last segment, and, when some message has a field, names a
/// known file.
pub open spec fn imports_resolvable(s: MessagesView, all: Seq<(Seq<char>, MessagesView)>) -> bool {
    forall|i: int|
        0 <= i < s.imports.len() ==> {
            &&& import_dir(#[trigger] s.imports[i]) is Some
            &&& has_fields(s.messages) ==> lookup_module(all, import_file(s.imports[i])) is Some
        }
}

/// What resolving the imports of a schema has built so far.
pub struct GoImportState {
    /// The Go import lines.
    pub block: Seq<char>,
    /// The directories imported so far.
    pub used: Seq<Seq<char>>,
    /// The messages, their field types requalified so far.
    pub messages: Seq<MessageView>,
}

/// Resolving the first `n` imports of a schema compiled in the directory `parent`, in the Go
/// module `module`: each import adds an import line for its directory, unless that
/// directory was already imported or is the schema's own, and requalifies the field types
/// that name messages of the imported schema.
pub open spec fn go_import_state(
    s: MessagesView,
    n: int,
    parent: Seq<char>,
    module: Seq<char>,
    all: Seq<(Seq<char>, MessagesView)>,
) -> GoImportState
    decreases n,
{
    if n <= 0 {
        GoImportState { block: seq![], used: seq![], messages: s.messages }
    } else {
        let st = go_import_state(s, n - 1, parent, module, all);
        let imp = s.imports[n - 1];
        let tmp = import_dir(imp)->0;
        let fresh = !st.used.contains(tmp) && tmp != trimmed_start(parent, "\\"@);
        let module_messages = match lookup_module(all, import_file(imp)) {
            Some(m) => m.messages,
            None => seq![],
        };
        GoImportState {
            block: if fresh {
                st.block + "    "@ + tmp + " \""@ + module + "/"@ + tmp + "\"\n"@
            } else {
                st.block
            },
            used: if fresh {
                st.used.push(tmp)
            } else {
                st.used
            },
            messages: imported_messages(st.messages, module_messages, tmp),
        }
    }
}

/// The schema known for `file`.
pub fn find_module<'a>(all: &'a Vec<(String, Messages)>, file: &str) -> (r: Option<&'a Messages>)
    ensures
        match r {
            Some(m) => lookup_module(modules_view(all@), file@) == Some(m@),
            None => lookup_module(modules_view(all@), file@) is None,
        },
{
    let ghost v = modules_view(all@);
    let mut i: usize = 0;
    while i < all.len()
        invariant
            v == modules_view(all@),
            i <= all.len(),
            lookup_module(v, file@) == find_module_spec(v, file@, i as int),
        decreases all.len() - i,
    {
        assert(v[i as int] == (all@[i as int].0@, all@[i as int].1@));
        if str_eq(all[i].0.as_str(), file) {
            return Some(&all[i].1);
        }
        i = i + 1;
    }
    None
}

/// Requalifies the field types of `fields` by the messages of the imported `module`.
fn import_fields(fields: &mut Vec<Field>, object: &String, tmp: &String, module: &Messages)
    ensures
        fields_view(final(fields)@) == fields_view(old(fields)@).map_values(
            |f: FieldView| imported_field(f, module@.messages, tmp@),
        ),
{
    let ghost start = fields_view(fields@);
    let mut j: usize = 0;
    while j < fields.len()
        invariant
            j <= fields.len(),
            fields@.len() == start.len(),
            forall|k: int| j <= k < start.len() ==> fields@[k]@ == start[k],
            forall|k: int|
                0 <= k < j ==> fields@[k]@ == imported_field(start[k], module@.messages, tmp@),
        decreases fields.len() - j,
    {
        import_field(&mut fields[j], object, tmp, module);
        j = j + 1;
    }
    assert(fields_view(fields@) =~= start.map_values(
        |f: FieldView| imported_field(f, module@.messages, tmp@),
    ));
}

/// Requalifies the field types of the messages `messages` by the messages of the imported
/// `module`.
fn import_messages(messages: &mut Vec<Message>, object: &String, tmp: &String, module: &Messages)
    ensures
        final(messages)@.map_values(|m: Message| m@) == imported_messages(
            old(messages)@.map_values(|m: Message| m@),
            module@.messages,
            tmp@,
        ),
{
    let ghost start = messages@.map_values(|m: Message| m@);
    let mut i: usize = 0;
    while i < messages.len()
        invariant
            i <= messages.len(),
            messages@.len() == start.len(),
            forall|k: int| i <= k < start.len() ==> messages@[k]@ == start[k],
            forall|k: int|
                0 <= k < i ==> messages@[k]@ == imported_message(start[k], module@.messages, tmp@),
        decreases messages.len() - i,
    {
        import_fields(&mut messages[i].fields, object, tmp, module);
        assert(messages@[i as int]@ =~= imported_message(start[i as int], module@.messages, tmp@));
        i = i + 1;
    }
    assert(messages@.map_values(|m: Message| m@) =~= imported_messages(
        start,
        module@.messages,
        tmp@,
    ));
}

/// Whether `t` is one of `list`.
fn contains_string(list: &Vec<String>, t: &String) -> (r: bool)
    ensures
        r == list@.map_values(|x: String| x@).contains(t@),
{
    let ghost v = list@.map_values(|x: String| x@);
    let mut i: usize = 0;
    while i < list.len()
        invariant
            v == list@.map_values(|x: String| x@),
            i <= list.len(),
            forall|k: int| 0 <= k < i ==> v[k] != t@,
        decreases list.len() - i,
    {
        if str_eq(list[i].as_str(), t.as_str()) {
            assert(v[i as int] == t@);
            return true;
        }
        i = i + 1;
    }
    false
}

proof fn lemma_imported_messages_keep_fields(ms: Seq<MessageView>, module: Seq<MessageView>, tmp: Seq<char>)
    ensures
        imported_messages(ms, module, tmp).len() == ms.len(),
        forall|i: int|
            0 <= i < ms.len() ==> #[trigger] imported_messages(ms, module, tmp)[i].fields.len()
                == ms[i].fields.len(),
        has_fields(imported_messages(ms, module, tmp)) == has_fields(ms),
{
    let r = imported_messages(ms, module, tmp);
    if has_fields(ms) {
        let i = choose|i: int| 0 <= i < ms.len() && ms[i].fields.len() > 0;
        assert(r[i].fields.len() > 0);
    }
    if has_fields(r) {
        let i = choose|i: int| 0 <= i < r.len() && r[i].fields.len() > 0;
        assert(ms[i].fields.len() > 0);
    }
}

impl Messages {
    /// Resolves the imports of this schema, compiled in the directory `parent` of the Go
    /// module `module`, against the known schemas `all_messages`: requalifies the field
    /// types that name imported messages, and returns the Go import lines.
    pub fn resolve_go_imports(
        &mut self,
        parent: &str,
        module: &String,
        all_messages: &Vec<(String, Messages)>,
    ) -> (block: String)
        requires
            imports_resolvable(old(self)@, modules_view(all_messages@)),
        ensures
            ({
                let st = go_import_state(
                    old(self)@,
                    old(self)@.imports.len() as int,
                    parent@,
                    module@,
                    modules_view(all_messages@),
                );
                &&& block@ == st.block
                &&& final(self)@ == (MessagesView { messages: st.messages, ..old(self)@ })
            }),
    {
        let ghost s = self@;
        let ghost all = modules_view(all_messages@);
        let mut block = String::new();
        let mut used: Vec<String> = Vec::new();
        let own = trim_start_matches(parent, "\\");
        let mut i: usize = 0;
        while i < self.imports.len()
            invariant
                all == modules_view(all_messages@),
                imports_resolvable(s, all),
                i <= self.imports.len(),
                own@ == trimmed_start(parent@, "\\"@),
                self@ == (MessagesView {
                    messages: go_import_state(s, i as int, parent@, module@, all).messages,
                    ..s
                }),
                block@ == go_import_state(s, i as int, parent@, module@, all).block,
                used@.map_values(|x: String| x@) == go_import_state(
                    s,
                    i as int,
                    parent@,
                    module@,
                    all,
                ).used,
                has_fields(self@.messages) == has_fields(s.messages),
            decreases self.imports.len() - i,
        {
            let ghost st = go_import_state(s, i as int, parent@, module@, all);
            let import = self.imports[i].clone();
            assert(import@ == s.imports[i as int]);
            let unquoted = trim_start_matches(import.as_str(), "\"");
            let file = trim_end_matches(unquoted.as_str(), "\"");
            let segment = last_segment(import.as_str(), '/');
            let object = trim_end_matches(segment.as_str(), "\"");
            let suffix = concat("/", object.as_str());
            let tmp = strip_suffix(file.as_str(), suffix.as_str()).unwrap();
            if !contains_string(&used, &tmp) && !str_eq(tmp.as_str(), own.as_str()) {
                let ghost before = used@.map_values(|x: String| x@);
                used.push(tmp.clone());
                assert(used@.map_values(|x: String| x@) =~= before.push(tmp@));
                block.append("    ");
                block.append(tmp.as_str());
                block.append(" \"");
                block.append(module.as_str());
                block.append("/");
                block.append(tmp.as_str());
                block.append("\"\n");
            }
            proof {
                lemma_imported_messages_keep_fields(
                    st.messages,
                    match lookup_module(all, file@) {
                        Some(m) => m.messages,
                        None => seq![],
                    },
                    tmp@,
                );
            }
            match find_module(all_messages, file.as_str()) {
                Some(module_schema) => {
                    import_messages(&mut self.messages, &object, &tmp, module_schema);
                },
                None => {
                    assert(!has_fields(st.messages));
                    assert(imported_messages(st.messages, seq![], tmp@) =~= st.messages) by {
                        assert forall|k: int| 0 <= k < st.messages.len() implies imported_messages(
                            st.messages,
                            seq![],
                            tmp@,
                        )[k] == st.messages[k] by {
                            assert(!(st.messages[k].fields.len() > 0));
                            assert(imported_message(st.messages[k], seq![], tmp@).fields
                                =~= st.messages[k].fields);
                        }
                    }
                },
            }
            i = i + 1;
        }
        block
    }
}

/// The constants of the first `n` values of the enum `name`.
pub open spec fn go_enum_consts(name: Seq<char>, fs: Seq<PEnumFieldView>, n: int) -> Seq<char>
    decreases n,
{
    if n <= 0 {
        seq![]
    } else {
        go_enum_consts(name, fs, n - 1) + "    "@ + name + "_"@ + fs[n - 1].name + "    "@ + name
            + " = "@ + decimal(fs[n - 1].index as nat) + ";\n"@
    }
}

/// The number-to-name map entries of the first `n` values of an enum.
pub open spec fn go_enum_names(fs: Seq<PEnumFieldView>, n: int) -> Seq<char>
    decreases n,
{
    if n <= 0 {
        seq![]
    } else {
        go_enum_names(fs, n - 1) + "        "@ + decimal(fs[n - 1].index as nat) + ": \""@ + fs[n
            - 1].name + "\",\n"@
    }
}

/// The name-to-number map entries of the first `n` values of an enum.
pub open spec fn go_enum_values(fs: Seq<PEnumFieldView>, n: int) -> Seq<char>
    decreases n,
{
    if n <= 0 {
        seq![]
    } else {
        go_enum_values(fs, n - 1) + "        \""@ + fs[n - 1].name + "\": "@ + decimal(
            fs[n - 1].index as nat,
        ) + ",\n"@
    }
}

/// The descriptor of an enum.
pub open spec fn enum_desc_of(e: PEnumView) -> EnumDescView {
    EnumDescView {
        name: e.name,
        value: e.fields.map_values(
            |f: PEnumFieldView| EnumValueDescView { name: f.name, number: f.index as i32 },
        ),
    }
}

/// The Go code of the enum `e`, the `i`-th of `count` enums of a file whose type tables
/// are named after `msg_types`.
pub open spec fn go_enum_code(e: PEnumView, msg_types: Seq<char>, i: nat, count: nat) -> Seq<char> {
    go_enum_block(
        e.name,
        go_enum_consts(e.name, e.fields, e.fields.len() as int),
        go_enum_names(e.fields, e.fields.len() as int),
        go_enum_values(e.fields, e.fields.len() as int),
        msg_types,
        decimal(i),
        decimal(count),
    )
}

/// The entry of the Go type table for an enum.
pub open spec fn go_enum_type_line(name: Seq<char>, counter: nat) -> Seq<char> {
    "    ("@ + name + ")(0), // "@ + decimal(counter) + ": "@ + name + "\n"@
}

/// The entry of the Go type table for a message.
pub open spec fn go_message_type_line(name: Seq<char>, counter: nat) -> Seq<char> {
    "    (*"@ + name + ")(nil), // "@ + decimal(counter) + ": "@ + name + "\n"@
}

/// What compiling the enums of a schema to Go gives, for its first `n` enums.
pub struct GoEnumsState {
    pub code: Seq<char>,
    pub go_types: Seq<char>,
    pub descs: Seq<EnumDescView>,
}

pub open spec fn go_enums_state(s: MessagesView, msg_types: Seq<char>, n: int) -> GoEnumsState
    decreases n,
{
    if n <= 0 {
        GoEnumsState { code: seq![], go_types: seq![], descs: seq![] }
    } else {
        let st = go_enums_state(s, msg_types, n - 1);
        let e = s.penums[n - 1];
        GoEnumsState {
            code: st.code + go_enum_code(e, msg_types, (n - 1) as nat, s.penums.len()),
            go_types: st.go_types + go_enum_type_line(e.name, (n - 1) as nat),
            descs: st.descs.push(enum_desc_of(e)),
        }
    }
}

fn go_enum_type_line_text(name: &String, counter: usize) -> (r: String)
    ensures
        r@ == go_enum_type_line(name@, counter as nat),
{
    let mut t = String::from_str("    (");
    t.append(name.as_str());
    t.append(")(0), // ");
    t.append(usize_text(counter).as_str());
    t.append(": ");
    t.append(name.as_str());
    t.append("\n");
    t
}

fn go_message_type_line_text(name: &String, counter: usize) -> (r: String)
    ensures
        r@ == go_message_type_line(name@, counter as nat),
{
    let mut t = String::from_str("    (*");
    t.append(name.as_str());
    t.append(")(nil), // ");
    t.append(usize_text(counter).as_str());
    t.append(": ");
    t.append(name.as_str());
    t.append("\n");
    t
}

fn go_enum_parts(e: &PEnum, msg_types: &str, i: usize, count: usize) -> (r: (String, EnumDesc))
    ensures
        r.0@ == go_enum_code(e@, msg_types@, i as nat, count as nat),
        r.1@ == enum_desc_of(e@),
{
    let name = &e.name;
    let mut const_values = String::new();
    let mut name_map = String::new();
    let mut value_map = String::new();
    let mut enum_desc = EnumDesc { name: name.clone(), value: Vec::new() };
    let ghost fs = e@.fields;
    let mut j: usize = 0;
    while j < e.fields.len()
        invariant
            fs == e@.fields,
            name@ == e@.name,
            j <= e.fields.len(),
            const_values@ == go_enum_consts(e@.name, fs, j as int),
            name_map@ == go_enum_names(fs, j as int),
            value_map@ == go_enum_values(fs, j as int),
            enum_desc@.name == e@.name,
            enum_desc@.value.len() == j,
            forall|k: int|
                0 <= k < j ==> #[trigger] enum_desc@.value[k] == (EnumValueDescView {
                    name: fs[k].name,
                    number: fs[k].index as i32,
                }),
        decreases e.fields.len() - j,
    {
        let field = &e.fields[j];
        assert(fs[j as int] == field@);
        let index = usize_text(field.index);
        let ghost before = enum_desc@.value;
        enum_desc.value.push(
            EnumValueDesc {
                name: field.name.clone(),
                number: #[verifier::truncate] (field.index as i32),
            },
        );
        assert(enum_desc@.value =~= before.push(
            EnumValueDescView { name: fs[j as int].name, number: fs[j as int].index as i32 },
        ));
        const_values.append("    ");
        const_values.append(name.as_str());
        const_values.append("_");
        const_values.append(field.name.as_str());
        const_values.append("    ");
        const_values.append(name.as_str());
        const_values.append(" = ");
        const_values.append(index.as_str());
        const_values.append(";\n");
        name_map.append("        ");
        name_map.append(index.as_str());
        name_map.append(": \"");
        name_map.append(field.name.as_str());
        name_map.append("\",\n");
        value_map.append("        \"");
        value_map.append(field.name.as_str());
        value_map.append("\": ");
        value_map.append(index.as_str());
        value_map.append(",\n");
        j = j + 1;
    }
    assert(enum_desc@.value =~= fs.map_values(
        |f: PEnumFieldView| EnumValueDescView { name: f.name, number: f.index as i32 },
    ));
    let code = go_enum_block_text(
        name.as_str(),
        const_values.as_str(),
        name_map.as_str(),
        value_map.as_str(),
        msg_types,
        usize_text(i).as_str(),
        usize_text(count).as_str(),
    );
    (code, enum_desc)
}

impl Messages {
    /// Compiles the enums of this schema to Go: their code, their entries of the Go type
    /// table, their descriptors and their names.
    fn go_enums(&self, msg_types: &str) -> (r: (String, String, Vec<EnumDesc>, Vec<String>))
        ensures
            ({
                let st = go_enums_state(self@, msg_types@, self@.penums.len() as int);
                &&& r.0@ == st.code
                &&& r.1@ == st.go_types
                &&& r.2@.map_values(|d: EnumDesc| d@) == st.descs
                &&& r.3@.map_values(|x: String| x@) == self@.penums.map_values(|e: PEnumView| e.name)
            }),
    {
        let mut code = String::new();
        let mut go_types = String::new();
        let mut descs: Vec<EnumDesc> = Vec::new();
        let mut enums: Vec<String> = Vec::new();
        let mut i: usize = 0;
        while i < self.penums.len()
            invariant
                i <= self.penums.len(),
                code@ == go_enums_state(self@, msg_types@, i as int).code,
                go_types@ == go_enums_state(self@, msg_types@, i as int).go_types,
                descs@.map_values(|d: EnumDesc| d@) == go_enums_state(self@, msg_types@, i as int).descs,
                enums@.len() == i,
                forall|k: int| 0 <= k < i ==> #[trigger] enums@[k]@ == self@.penums[k].name,
            decreases self.penums.len() - i,
        {
            let penum = &self.penums[i];
            assert(self@.penums[i as int] == penum@);
            let (block, desc) = go_enum_parts(penum, msg_types, i, self.penums.len());
            code.append(block.as_str());
            go_types.append(go_enum_type_line_text(&penum.name, i).as_str());
            let ghost before_descs = descs@.map_values(|d: EnumDesc| d@);
            let ghost before_enums = enums@.map_values(|x: String| x@);
            descs.push(desc);
            enums.push(penum.name.clone());
            i = i + 1;
            assert(descs@.map_values(|d: EnumDesc| d@) =~= go_enums_state(self@, msg_types@, i as int).descs);
        }
        assert(enums@.map_values(|x: String| x@) =~= self@.penums.map_values(|e: PEnumView| e.name));
        (code, go_types, descs, enums)
    }
}

/// The names of the enums and messages of a schema with their positions, enums first, in
/// the order in which they are looked up (a later entry hides an earlier one).
pub open spec fn type_entries(s: MessagesView) -> Seq<(Seq<char>, usize)> {
    s.penums.map_values(|e: PEnumView| (e.name, e.index)) + s.messages.map_values(
        |m: MessageView| (m.name, m.index),
    )
}

/// The position of the last of the first `n` entries named `key`.
pub open spec fn last_entry(entries: Seq<(Seq<char>, usize)>, key: Seq<char>, n: int) -> Option<usize>
    decreases n,
{
    if n <= 0 {
        None
    } else if entries[n - 1].0 == key {
        Some(entries[n - 1].1)
    } else {
        last_entry(entries, key, n - 1)
    }
}

/// The position of the enum or message named `key` in a schema: a message hides an enum of
/// the same name, and a later one an earlier one.
pub open spec fn type_index(s: MessagesView, key: Seq<char>) -> Option<usize> {
    last_entry(type_entries(s), key, type_entries(s).len() as int)
}

/// The dependency entries of the message `m` for its first `n` dependencies `deps`: each
/// dependency that names an enum or message of the schema, with its position and a
/// description.
pub open spec fn dep_entries(s: MessagesView, m: MessageView, deps: Seq<Seq<char>>, n: int) -> Seq<(usize, Seq<char>)>
    decreases n,
{
    if n <= 0 {
        seq![]
    } else {
        let prev = dep_entries(s, m, deps, n - 1);
        match type_index(s, deps[n - 1]) {
            Some(idx) => prev.push(
                (
                    idx,
                    m.name + "."@ + unicode_str_lowercase(deps[n - 1]) + ":type_name -> "@ + deps[n
                        - 1],
                ),
            ),
            None => prev,
        }
    }
}

/// What compiling the messages of a schema to Go gives, for its first `n` messages.
pub struct GoMessagesState {
    pub code: Seq<char>,
    pub go_types: Seq<char>,
    pub descs: Seq<MessageDescView>,
    pub deps: Seq<(usize, Seq<char>)>,
}

pub open spec fn go_messages_state(s: MessagesView, msg_types: Seq<char>, n: int) -> GoMessagesState
    decreases n,
{
    if n <= 0 {
        GoMessagesState { code: seq![], go_types: seq![], descs: seq![], deps: seq![] }
    } else {
        let st = go_messages_state(s, msg_types, n - 1);
        let m = s.messages[n - 1];
        let (struct_code, getters, desc, deps) = go_message(
            m,
            s.penums.map_values(|e: PEnumView| e.name),
        );
        GoMessagesState {
            code: st.code + struct_code + go_message_block(
                m.name,
                msg_types,
                decimal((n - 1) as nat),
                getters,
            ),
            go_types: st.go_types + go_message_type_line(m.name, (s.penums.len() + n - 1) as nat),
            descs: st.descs.push(desc),
            deps: st.deps + dep_entries(s, m, deps, deps.len() as int),
        }
    }
}

/// The entries of the type tables, read as a list of name-position pairs.
fn type_entries_exec(s: &Messages) -> (r: Vec<(String, usize)>)
    ensures
        r@.map_values(|e: (String, usize)| (e.0@, e.1)) == type_entries(s@),
{
    let mut r: Vec<(String, usize)> = Vec::new();
    let mut i: usize = 0;
    while i < s.penums.len()
        invariant
            i <= s.penums.len(),
            r@.len() == i,
            forall|k: int|
                0 <= k < i ==> (#[trigger] r@[k].0@, r@[k].1) == (s@.penums[k].name, s@.penums[k].index),
        decreases s.penums.len() - i,
    {
        r.push((s.penums[i].name.clone(), s.penums[i].index));
        i = i + 1;
    }
    let mut j: usize = 0;
    while j < s.messages.len()
        invariant
            i == s.penums.len(),
            j <= s.messages.len(),
            r@.len() == i + j,
            forall|k: int|
                0 <= k < i ==> (#[trigger] r@[k].0@, r@[k].1) == (s@.penums[k].name, s@.penums[k].index),
            forall|k: int|
                0 <= k < j ==> (#[trigger] r@[i + k].0@, r@[i + k].1) == (
                    s@.messages[k].name,
                    s@.messages[k].index,
                ),
        decreases s.messages.len() - j,
    {
        r.push((s.messages[j].name.clone(), s.messages[j].index));
        assert(r@[i + j].0@ == s@.messages[j as int].name);
        j = j + 1;
    }
    assert forall|k: int| 0 <= k < r@.len() implies (r@[k].0@, r@[k].1) == type_entries(s@)[k] by {
        if k >= i {
            assert((r@[i + (k - i)].0@, r@[i + (k - i)].1) == (
                s@.messages[k - i].name,
                s@.messages[k - i].index,
            ));
        }
    }
    assert(r@.map_values(|e: (String, usize)| (e.0@, e.1)) =~= type_entries(s@));
    r
}

/// The position of the last entry named `key`.
fn find_type_index(entries: &Vec<(String, usize)>, key: &String) -> (r: Option<usize>)
    ensures
        r == last_entry(
            entries@.map_values(|e: (String, usize)| (e.0@, e.1)),
            key@,
            entries@.len() as int,
        ),
{
    let ghost v = entries@.map_values(|e: (String, usize)| (e.0@, e.1));
    let mut n: usize = entries.len();
    while n > 0
        invariant
            v == entries@.map_values(|e: (String, usize)| (e.0@, e.1)),
            n <= entries.len(),
            last_entry(v, key@, entries@.len() as int) == last_entry(v, key@, n as int),
        decreases n,
    {
        assert(v[n - 1] == (entries@[n - 1].0@, entries@[n - 1].1));
        if str_eq(entries[n - 1].0.as_str(), key.as_str()) {
            return Some(entries[n - 1].1);
        }
        n = n - 1;
    }
    None
}

/// Appends the dependency entries of `message`, whose dependencies are `message_deps`.
fn push_dep_entries(
    s: &Messages,
    message: &Message,
    message_deps: &Vec<String>,
    entries: &Vec<(String, usize)>,
    deps: &mut Vec<(usize, String)>,
)
    requires
        entries@.map_values(|e: (String, usize)| (e.0@, e.1)) == type_entries(s@),
    ensures
        final(deps)@.map_values(|e: (usize, String)| (e.0, e.1@)) == old(deps)@.map_values(
            |e: (usize, String)| (e.0, e.1@),
        ) + dep_entries(
            s@,
            message@,
            message_deps@.map_values(|x: String| x@),
            message_deps@.len() as int,
        ),
{
    let ghost before_deps = deps@.map_values(|e: (usize, String)| (e.0, e.1@));
    let ghost mdeps = message_deps@.map_values(|x: String| x@);
    let mut k: usize = 0;
    while k < message_deps.len()
        invariant
            entries@.map_values(|e: (String, usize)| (e.0@, e.1)) == type_entries(s@),
            mdeps == message_deps@.map_values(|x: String| x@),
            k <= message_deps.len(),
            deps@.map_values(|e: (usize, String)| (e.0, e.1@)) == before_deps + dep_entries(
                s@,
                message@,
                mdeps,
                k as int,
            ),
        decreases message_deps.len() - k,
    {
        let dep_name = &message_deps[k];
        assert(mdeps[k as int] == dep_name@);
        if let Some(idx) = find_type_index(entries, dep_name) {
            let mut comment = message.name.clone();
            comment.append(".");
            comment.append(str_to_lowercase(dep_name.as_str()).as_str());
            comment.append(":type_name -> ");
            comment.append(dep_name.as_str());
            let ghost b = deps@.map_values(|e: (usize, String)| (e.0, e.1@));
            deps.push((idx, comment));
            assert(deps@.map_values(|e: (usize, String)| (e.0, e.1@)) =~= b.push((idx, comment@)));
        }
        k = k + 1;
        assert(deps@.map_values(|e: (usize, String)| (e.0, e.1@)) =~= before_deps + dep_entries(
            s@,
            message@,
            mdeps,
            k as int,
        ));
    }
}

impl Messages {
    /// Compiles the messages of this schema to Go, given the names of its enums and the
    /// entries of its type tables: their code, their entries of the Go type table, their
    /// descriptors and their dependency entries.
    fn go_messages(
        &self,
        msg_types: &str,
        enums: &Vec<String>,
        entries: &Vec<(String, usize)>,
    ) -> (r: (String, String, Vec<MessageDesc>, Vec<(usize, String)>))
        requires
            enums@.map_values(|x: String| x@) == self@.penums.map_values(|e: PEnumView| e.name),
            entries@.map_values(|e: (String, usize)| (e.0@, e.1)) == type_entries(self@),
            self@.penums.len() + self@.messages.len() <= usize::MAX,
        ensures
            ({
                let st = go_messages_state(self@, msg_types@, self@.messages.len() as int);
                &&& r.0@ == st.code
                &&& r.1@ == st.go_types
                &&& r.2@.map_values(|d: MessageDesc| d@) == st.descs
                &&& r.3@.map_values(|e: (usize, String)| (e.0, e.1@)) == st.deps
            }),
    {
        let mut code = String::new();
        let mut go_types = String::new();
        let mut descs: Vec<MessageDesc> = Vec::new();
        let mut deps: Vec<(usize, String)> = Vec::new();
        let mut i: usize = 0;
        while i < self.messages.len()
            invariant
                enums@.map_values(|x: String| x@) == self@.penums.map_values(|e: PEnumView| e.name),
                entries@.map_values(|e: (String, usize)| (e.0@, e.1)) == type_entries(self@),
                self@.penums.len() + self@.messages.len() <= usize::MAX,
                i <= self.messages.len(),
                code@ == go_messages_state(self@, msg_types@, i as int).code,
                go_types@ == go_messages_state(self@, msg_types@, i as int).go_types,
                descs@.map_values(|d: MessageDesc| d@) == go_messages_state(self@, msg_types@, i as int).descs,
                deps@.map_values(|e: (usize, String)| (e.0, e.1@)) == go_messages_state(
                    self@,
                    msg_types@,
                    i as int,
                ).deps,
            decreases self.messages.len() - i,
        {
            let message = &self.messages[i];
            assert(self@.messages[i as int] == message@);
            let (struct_code, getters, desc, message_deps) = message.compile_go(enums);
            push_dep_entries(self, message, &message_deps, entries, &mut deps);
            code.append(struct_code.as_str());
            code.append(
                go_message_block_text(
                    message.name.as_str(),
                    msg_types,
                    usize_text(i).as_str(),
                    getters.as_str(),
                ).as_str(),
            );
            go_types.append(go_message_type_line_text(&message.name, self.penums.len() + i).as_str());
            let ghost before_descs = descs@.map_values(|d: MessageDesc| d@);
            descs.push(desc);
            assert(descs@.map_values(|d: MessageDesc| d@) =~= before_descs.push(desc@));
            i = i + 1;
        }
        (code, go_types, descs, deps)
    }
}

/// The entries of the dependency table for the first `n` dependency entries.
pub open spec fn go_dep_lines(deps: Seq<(usize, Seq<char>)>, n: int) -> Seq<char>
    decreases n,
{
    if n <= 0 {
        seq![]
    } else {
        go_dep_lines(deps, n - 1) + "    "@ + decimal(deps[n - 1].0 as nat) + ", // "@ + decimal(
            (n - 1) as nat,
        ) + ": "@ + deps[n - 1].1 + "\n"@
    }
}

/// The body of the Go dependency table: the dependency entries, then the sub-list bounds.
pub open spec fn go_dep_idxs(deps: Seq<(usize, Seq<char>)>) -> Seq<char> {
    let total = signed_decimal((deps.len() as i32) as int);
    "\n"@ + go_dep_lines(deps, deps.len() as int) + "    "@ + total
        + ", // [0:0] is the sub-list for method output_type\n"@ + "    "@ + total
        + ", // [0:0] is the sub-list for method input_type\n"@ + "    "@ + total
        + ", // [0:0] is the sub-list for extension type_name\n"@ + "    "@ + total
        + ", // [0:0] is the sub-list for extension extendee\n"@ + "    0, // [0:"@ + total
        + "] is the sub-list for field type_name\n"@
}

/// The wrapper entries of the first `n` alternatives of a `oneof` group of the message
/// `message`.
pub open spec fn alt_wrappers(message: Seq<char>, alts: Seq<FieldView>, n: int) -> Seq<char>
    decreases n,
{
    if n <= 0 {
        seq![]
    } else {
        alt_wrappers(message, alts, n - 1) + "        (*"@ + message + "_"@ + pascal_case(
            alts[n - 1].name,
        ) + ")(nil),\n"@
    }
}

/// The `OneofWrappers` registrations of the `oneof` groups among the first `n` fields of
/// the message `m`.
pub open spec fn field_wrappers(m: MessageView, msg_types: Seq<char>, n: int) -> Seq<char>
    decreases n,
{
    if n <= 0 {
        seq![]
    } else {
        match m.fields[n - 1].maybe_types {
            Some(alts) => field_wrappers(m, msg_types, n - 1) + "    "@ + msg_types + "_msgTypes["@
                + decimal(m.index as nat) + "].OneofWrappers = []any{\n"@ + alt_wrappers(
                m.name,
                alts,
                alts.len() as int,
            ) + "    }\n"@,
            None => field_wrappers(m, msg_types, n - 1),
        }
    }
}

/// The `OneofWrappers` registrations of the first `n` messages.
pub open spec fn go_oneof_wrappers(ms: Seq<MessageView>, msg_types: Seq<char>, n: int) -> Seq<char>
    decreases n,
{
    if n <= 0 {
        seq![]
    } else {
        go_oneof_wrappers(ms, msg_types, n - 1) + field_wrappers(
            ms[n - 1],
            msg_types,
            ms[n - 1].fields.len() as int,
        )
    }
}

fn dep_idxs_text(deps: &Vec<(usize, String)>) -> (r: String)
    ensures
        r@ == go_dep_idxs(deps@.map_values(|e: (usize, String)| (e.0, e.1@))),
{
    let ghost d = deps@.map_values(|e: (usize, String)| (e.0, e.1@));
    let mut lines = String::new();
    let mut i: usize = 0;
    while i < deps.len()
        invariant
            d == deps@.map_values(|e: (usize, String)| (e.0, e.1@)),
            i <= deps.len(),
            lines@ == go_dep_lines(d, i as int),
        decreases deps.len() - i,
    {
        assert(d[i as int] == (deps@[i as int].0, deps@[i as int].1@));
        lines.append("    ");
        lines.append(usize_text(deps[i].0).as_str());
        lines.append(", // ");
        lines.append(usize_text(i).as_str());
        lines.append(": ");
        lines.append(deps[i].1.as_str());
        lines.append("\n");
        i = i + 1;
    }
    let total = i32_text(#[verifier::truncate] (deps.len() as i32));
    let mut r = String::from_str("\n");
    r.append(lines.as_str());
    r.append("    ");
    r.append(total.as_str());
    r.append(", // [0:0] is the sub-list for method output_type\n");
    r.append("    ");
    r.append(total.as_str());
    r.append(", // [0:0] is the sub-list for method input_type\n");
    r.append("    ");
    r.append(total.as_str());
    r.append(", // [0:0] is the sub-list for extension type_name\n");
    r.append("    ");
    r.append(total.as_str());
    r.append(", // [0:0] is the sub-list for extension extendee\n");
    r.append("    0, // [0:");
    r.append(total.as_str());
    r.append("] is the sub-list for field type_name\n");
    r
}

fn message_wrappers_text(message: &Message, msg_types: &str) -> (r: String)
    ensures
        r@ == field_wrappers(message@, msg_types@, message@.fields.len() as int),
{
    let ghost m = message@;
    let mut r = String::new();
    let mut j: usize = 0;
    while j < message.fields.len()
        invariant
            m == message@,
            j <= message.fields.len(),
            r@ == field_wrappers(m, msg_types@, j as int),
        decreases message.fields.len() - j,
    {
        let field = &message.fields[j];
        assert(m.fields[j as int] == field@);
        if let Some(alts) = &field.maybe_types {
            let ghost av = field@.maybe_types->0;
            r.append("    ");
            r.append(msg_types);
            r.append("_msgTypes[");
            r.append(usize_text(message.index).as_str());
            r.append("].OneofWrappers = []any{\n");
            let mut entries = String::new();
            let mut k: usize = 0;
            while k < alts.len()
                invariant
                    field.maybe_types == Some(*alts),
                    av == field@.maybe_types->0,
                    av.len() == alts.len(),
                    k <= alts.len(),
                    entries@ == alt_wrappers(m.name, av, k as int),
                    m == message@,
                decreases alts.len() - k,
            {
                assert(av[k as int] == alts[k as int]@);
                entries.append("        (*");
                entries.append(message.name.as_str());
                entries.append("_");
                entries.append(snake_to_pascal(alts[k].name.as_str()).as_str());
                entries.append(")(nil),\n");
                k = k + 1;
            }
            r.append(entries.as_str());
            r.append("    }\n");
        }
        j = j + 1;
    }
    r
}

/// The descriptor of a compiled schema.
pub open spec fn file_desc_of(
    s: MessagesView,
    source_file: Seq<char>,
    stem: Seq<char>,
    module: Seq<char>,
    enum_descs: Seq<EnumDescView>,
    message_descs: Seq<MessageDescView>,
) -> FileDescView {
    FileDescView {
        name: replaced(source_file, '\\', '/'),
        message_type: message_descs,
        enum_type: enum_descs,
        options: FileOptionsDescView {
            java_outer_classname: pascal_case(stem) + "Proto"@,
            java_multiple_files: true,
            go_package: module + "/"@ + s.package,
        },
        syntax: "proto3"@,
    }
}

/// The name prefix of the type tables of a generated Go file.
pub open spec fn go_msg_types(s: MessagesView, stem: Seq<char>) -> Seq<char> {
    "file_"@ + s.package + "_"@ + stem + "_proto"@
}

/// The name of the Go variable of the file descriptor: the type-table prefix `msg_types`
/// capitalized.
fn go_file_var(msg_types: &String, package: &String, stem: &String) -> (r: String)
    requires
        msg_types@ == "file_"@ + package@ + "_"@ + stem@ + "_proto"@,
    ensures
        r@ == "File_"@ + package@ + "_"@ + stem@ + "_proto"@,
{
    let r = capitalize_first(msg_types.as_str());
    proof {
        reveal_strlit("file_");
        reveal_strlit("File_");
        assert(msg_types@[0] == 'f');
        assert(r@ =~= "File_"@ + package@ + "_"@ + stem@ + "_proto"@);
    }
    r
}

/// The Go code of a schema whose imports are resolved, from the file `source_file` with
/// the snake-case stem `stem`, in the Go module `module`, with the import lines `imports`.
pub open spec fn go_code(
    s: MessagesView,
    source_file: Seq<char>,
    stem: Seq<char>,
    module: Seq<char>,
    imports: Seq<char>,
) -> Seq<char> {
    let msg_types = go_msg_types(s, stem);
    let en = go_enums_state(s, msg_types, s.penums.len() as int);
    let ms = go_messages_state(s, msg_types, s.messages.len() as int);
    let fd = file_desc_of(s, source_file, stem, module, en.descs, ms.descs);
    go_header(source_file, s.package, imports) + en.code + ms.code + go_final_block(
        "File_"@ + s.package + "_"@ + stem + "_proto"@,
        crate::ast::compile_go::go_string_const(file_desc_bytes(fd), msg_types + "_rawDesc"@),
        msg_types,
        decimal(s.messages.len()),
        en.go_types + ms.go_types,
        go_dep_idxs(ms.deps),
        go_oneof_wrappers(s.messages, msg_types, s.messages.len() as int),
        decimal(s.penums.len()),
        if s.penums.len() > 0 {
            msg_types + "_enumTypes"@
        } else {
            "nil"@
        },
    )
}

/// A generated Go file: its directory, relative to the output directory, its name and
/// its code.
#[derive(Debug)]
pub struct GoOutput {
    pub dir: String,
    pub file_name: String,
    pub code: String,
}

pub struct GoOutputView {
    pub dir: Seq<char>,
    pub file_name: Seq<char>,
    pub code: Seq<char>,
}

impl View for GoOutput {
    type V = GoOutputView;

    open spec fn view(&self) -> GoOutputView {
        GoOutputView { dir: self.dir@, file_name: self.file_name@, code: self.code@ }
    }
}

/// The schema after its imports are resolved, and the Go file compiled from it, for the
/// schema `s` from the file `file`, whose directory relative to the input directory is
/// `parent` and whose file stem is `file_stem`, in the Go module `module`, against the
/// known schemas `all`.
pub open spec fn go_output(
    s: MessagesView,
    file: Seq<char>,
    parent: Seq<char>,
    file_stem: Seq<char>,
    module: Seq<char>,
    all: Seq<(Seq<char>, MessagesView)>,
) -> (MessagesView, GoOutputView) {
    let imp = go_import_state(s, s.imports.len() as int, parent, module, all);
    let resolved = MessagesView { messages: imp.messages, ..s };
    let source_file = trimmed_start(file, ".\\"@);
    let stem = snake_case(file_stem);
    (
        resolved,
        GoOutputView {
            dir: trimmed_start(parent, "\\"@),
            file_name: stem + ".pb.go"@,
            code: go_code(resolved, source_file, stem, module, imp.block),
        },
    )
}

proof fn lemma_go_import_state_len(
    s: MessagesView,
    n: int,
    parent: Seq<char>,
    module: Seq<char>,
    all: Seq<(Seq<char>, MessagesView)>,
)
    requires
        n <= s.imports.len(),
    ensures
        go_import_state(s, n, parent, module, all).messages.len() == s.messages.len(),
    decreases n,
{
    if n > 0 {
        lemma_go_import_state_len(s, n - 1, parent, module, all);
    }
}

impl Messages {
    /// The raw descriptor of this schema as a Go string constant.
    fn go_raw_desc(
        &self,
        source_file: &String,
        stem: &String,
        module: &String,
        msg_types: &String,
        enum_descs: Vec<EnumDesc>,
        message_descs: Vec<MessageDesc>,
    ) -> (r: String)
        ensures
            r@ == go_string_const(
                file_desc_bytes(
                    file_desc_of(
                        self@,
                        source_file@,
                        stem@,
                        module@,
                        enum_descs@.map_values(|d: EnumDesc| d@),
                        message_descs@.map_values(|d: MessageDesc| d@),
                    ),
                ),
                msg_types@ + "_rawDesc"@,
            ),
    {
        let mut go_package = module.clone();
        go_package.append("/");
        go_package.append(self.package.as_str());
        let mut outer = snake_to_pascal(stem.as_str());
        outer.append("Proto");
        let file_desc = FileDesc {
            name: replace_char(source_file.as_str(), '\\', '/'),
            message_type: message_descs,
            enum_type: enum_descs,
            options: FileOptionsDesc {
                java_outer_classname: outer,
                java_multiple_files: true,
                go_package,
            },
            syntax: String::from_str("proto3"),
        };
        let raw_bytes = file_desc.encode();
        let mut raw_name = msg_types.clone();
        raw_name.append("_rawDesc");
        self.generate_go_string(raw_bytes.as_slice(), raw_name.as_str())
    }

    fn go_oneof_wrappers_text(&self, msg_types: &String) -> (r: String)
        ensures
            r@ == go_oneof_wrappers(self@.messages, msg_types@, self@.messages.len() as int),
    {
        let mut oneof_wrappers = String::new();
        let mut i: usize = 0;
        while i < self.messages.len()
            invariant
                i <= self.messages.len(),
                oneof_wrappers@ == go_oneof_wrappers(self@.messages, msg_types@, i as int),
            decreases self.messages.len() - i,
        {
            assert(self@.messages[i as int] == self.messages[i as int]@);
            oneof_wrappers.append(message_wrappers_text(&self.messages[i], msg_types.as_str()).as_str());
            i = i + 1;
        }
        oneof_wrappers
    }

    /// The Go code of this schema, whose imports are resolved, from the file `source_file`
    /// with the snake-case stem `stem`, in the Go module `module`, with the import lines
    /// `imports`.
    pub fn go_code_text(&self, source_file: &String, stem: &String, module: &String, imports: &String) -> (code: String)
        requires
            self@.penums.len() + self@.messages.len() <= usize::MAX,
        ensures
            code@ == go_code(self@, source_file@, stem@, module@, imports@),
    {
        let mut msg_types = String::from_str("file_");
        msg_types.append(self.package.as_str());
        msg_types.append("_");
        msg_types.append(stem.as_str());
        msg_types.append("_proto");
        let (enum_code, enum_go_types, enum_descs, enums) = self.go_enums(msg_types.as_str());
        let entries = type_entries_exec(self);
        let (message_code, message_go_types, message_descs, deps) = self.go_messages(
            msg_types.as_str(),
            &enums,
            &entries,
        );
        let go_string = self.go_raw_desc(source_file, stem, module, &msg_types, enum_descs, message_descs);
        let oneof_wrappers = self.go_oneof_wrappers_text(&msg_types);
        let mut go_types = enum_go_types;
        go_types.append(message_go_types.as_str());
        let enum_types = if self.penums.len() > 0 {
            let mut t = msg_types.clone();
            t.append("_enumTypes");
            t
        } else {
            String::from_str("nil")
        };
        let cap_msg_types = go_file_var(&msg_types, &self.package, stem);
        let mut code = go_header_text(source_file.as_str(), self.package.as_str(), imports.as_str());
        code.append(enum_code.as_str());
        code.append(message_code.as_str());
        code.append(
            go_final_block_text(
                cap_msg_types.as_str(),
                go_string.as_str(),
                msg_types.as_str(),
                usize_text(self.messages.len()).as_str(),
                go_types.as_str(),
                dep_idxs_text(&deps).as_str(),
                oneof_wrappers.as_str(),
                usize_text(self.penums.len()).as_str(),
                enum_types.as_str(),
            ).as_str(),
        );
        code
    }

    /// Compiles this schema, from the file `file` whose directory relative to the input
    /// directory is `parent` and whose file stem is `file_stem`, to a Go file in the Go
    /// module `module`, resolving its imports against the known schemas `all_messages`.
    /// The field types that name imported messages are requalified in place.
    pub fn compile_go(
        &mut self,
        file: String,
        parent: String,
        file_stem: String,
        module: Option<String>,
        all_messages: &Vec<(String, Messages)>,
    ) -> (out: GoOutput)
        requires
            module is Some,
            imports_resolvable(old(self)@, modules_view(all_messages@)),
            old(self)@.penums.len() + old(self)@.messages.len() <= usize::MAX,
        ensures
            ({
                let (resolved, o) = go_output(
                    old(self)@,
                    file@,
                    parent@,
                    file_stem@,
                    module->0@,
                    modules_view(all_messages@),
                );
                &&& final(self)@ == resolved
                &&& out@ == o
            }),
    {
        let module = module.unwrap();
        let source_file = trim_start_matches(file.as_str(), ".\\");
        let stem = pascal_to_snake(file_stem.as_str());
        proof {
            lemma_go_import_state_len(
                self@,
                self@.imports.len() as int,
                parent@,
                module@,
                modules_view(all_messages@),
            );
        }
        let imports = self.resolve_go_imports(parent.as_str(), &module, all_messages);
        let code = self.go_code_text(&source_file, &stem, &module, &imports);
        let mut file_name = stem.clone();
        file_name.append(".pb.go");
        GoOutput { dir: trim_start_matches(parent.as_str(), "\\"), file_name, code }
    }
}

} // verus!
